use vstd::prelude::*;

use crate::state::GameState;
use crate::types::{
    pos_ok, CarSprite, Enemy, Marble, PowerSprite, CULL_X, CULL_Y, MAGAZINE_SIZE, MARBLE_SPEED,
    MAX_SPEED, POWERUP_SPEED, POS_LIMIT, STEP_LIMIT,
};

verus! {

/// Positions past the upper or right-hand bound get their entity culled.
pub open spec fn in_bounds(x: i64, y: i64) -> bool {
    y <= CULL_Y && x <= CULL_X
}

/// Displacements are clamped into the fixed-point position range; with the
/// culling bounds astronomically far from the clamp, no reachable motion is
/// ever clamped.
pub open spec fn clamp_pos(v: int) -> int {
    if v < -POS_LIMIT {
        -POS_LIMIT as int
    } else if v > POS_LIMIT {
        POS_LIMIT as int
    } else {
        v
    }
}

/// A projectile after one tick: risen by its fixed speed times `dt`.
pub open spec fn moved_marble(m: Marble, dt_ms: u32) -> Marble {
    Marble { num: m.num, x: m.x, y: clamp_pos(m.y + MARBLE_SPEED * dt_ms) as i64 }
}

/// An enemy entity after one tick: advanced right by its record's speed times
/// `dt`, and, for a weaving mover, shifted vertically by this tick's wave
/// offset.
pub open spec fn moved_car(c: CarSprite, e: Enemy, dt_ms: u32, wave_mpx: i32) -> CarSprite {
    CarSprite {
        num: c.num,
        x: clamp_pos(c.x + e.speed * dt_ms) as i64,
        y: if e.behavior is Sinusoidal {
            clamp_pos(c.y + wave_mpx) as i64
        } else {
            c.y
        },
    }
}

/// The power-up after one tick: advanced right by its fixed speed times `dt`.
pub open spec fn moved_power(p: PowerSprite, dt_ms: u32) -> PowerSprite {
    PowerSprite { x: clamp_pos(p.x + POWERUP_SPEED * dt_ms) as i64, y: p.y }
}

/// The projectiles that stay after culling, in their original order.
pub open spec fn surviving_marbles(s: Seq<Marble>) -> Seq<Marble>
    decreases s.len(),
{
    if s.len() == 0 {
        Seq::empty()
    } else {
        let rest = surviving_marbles(s.drop_last());
        if in_bounds(s.last().x, s.last().y) {
            rest.push(s.last())
        } else {
            rest
        }
    }
}

/// The magazine labels of the culled projectiles, in registry order: these
/// return to the pool.
pub open spec fn freed_labels(s: Seq<Marble>) -> Seq<u32>
    decreases s.len(),
{
    if s.len() == 0 {
        Seq::empty()
    } else {
        let rest = freed_labels(s.drop_last());
        if in_bounds(s.last().x, s.last().y) {
            rest
        } else {
            rest.push(s.last().num)
        }
    }
}

/// The enemy entities that stay after culling, in their original order.
pub open spec fn surviving_cars(s: Seq<CarSprite>) -> Seq<CarSprite>
    decreases s.len(),
{
    if s.len() == 0 {
        Seq::empty()
    } else {
        let rest = surviving_cars(s.drop_last());
        if in_bounds(s.last().x, s.last().y) {
            rest.push(s.last())
        } else {
            rest
        }
    }
}

/// The directory records that stay after culling: a record stays exactly
/// when its (index-aligned) entity stays.
pub open spec fn surviving_records(cs: Seq<CarSprite>, dir: Seq<Enemy>) -> Seq<Enemy>
    decreases cs.len(),
{
    if cs.len() == 0 {
        Seq::empty()
    } else {
        let rest = surviving_records(cs.drop_last(), dir.drop_last());
        if in_bounds(cs.last().x, cs.last().y) {
            rest.push(dir.last())
        } else {
            rest
        }
    }
}

/// Unfolds one step of the marble culling functions over a growing prefix.
proof fn lemma_cull_marbles_step(s: Seq<Marble>, i: int)
    requires
        0 <= i < s.len(),
    ensures
        surviving_marbles(s.take(i + 1)) == if in_bounds(s[i].x, s[i].y) {
            surviving_marbles(s.take(i)).push(s[i])
        } else {
            surviving_marbles(s.take(i))
        },
        freed_labels(s.take(i + 1)) == if in_bounds(s[i].x, s[i].y) {
            freed_labels(s.take(i))
        } else {
            freed_labels(s.take(i)).push(s[i].num)
        },
{
    assert(s.take(i + 1).drop_last() =~= s.take(i));
    assert(s.take(i + 1).last() == s[i]);
}

/// Unfolds one step of the car culling functions over growing prefixes.
proof fn lemma_cull_cars_step(cs: Seq<CarSprite>, dir: Seq<Enemy>, i: int)
    requires
        0 <= i < cs.len(),
        cs.len() == dir.len(),
    ensures
        surviving_cars(cs.take(i + 1)) == if in_bounds(cs[i].x, cs[i].y) {
            surviving_cars(cs.take(i)).push(cs[i])
        } else {
            surviving_cars(cs.take(i))
        },
        surviving_records(cs.take(i + 1), dir.take(i + 1)) == if in_bounds(cs[i].x, cs[i].y) {
            surviving_records(cs.take(i), dir.take(i)).push(dir[i])
        } else {
            surviving_records(cs.take(i), dir.take(i))
        },
{
    assert(cs.take(i + 1).drop_last() =~= cs.take(i));
    assert(dir.take(i + 1).drop_last() =~= dir.take(i));
    assert(cs.take(i + 1).last() == cs[i]);
    assert(dir.take(i + 1).last() == dir[i]);
}

/// Culling keeps the projectile bookkeeping well formed: the kept entities
/// and the freed labels split the old entities, every label stays in range
/// and distinct, and pool and flight stay disjoint.
proof fn lemma_cull_marbles_wf(s: Seq<Marble>, pool: Seq<u32>)
    requires
        forall|i: int, j: int| 0 <= i < j < s.len() ==> s[i].num != s[j].num,
        forall|i: int, j: int|
            0 <= i < pool.len() && 0 <= j < s.len() ==> pool[i] != s[j].num,
        forall|i: int, j: int| 0 <= i < j < pool.len() ==> pool[i] != pool[j],
        forall|i: int| 0 <= i < s.len() ==> 1 <= (#[trigger] s[i]).num <= MAGAZINE_SIZE,
        forall|i: int| 0 <= i < pool.len() ==> 1 <= #[trigger] pool[i] <= MAGAZINE_SIZE,
        forall|i: int| 0 <= i < s.len() ==> pos_ok((#[trigger] s[i]).x, s[i].y),
    ensures
        surviving_marbles(s).len() + freed_labels(s).len() == s.len(),
        ({
            let ms2 = surviving_marbles(s);
            let pool2 = pool + freed_labels(s);
            &&& forall|j: int|
                0 <= j < ms2.len() ==> 1 <= (#[trigger] ms2[j]).num <= MAGAZINE_SIZE
            &&& forall|j: int| 0 <= j < ms2.len() ==> pos_ok((#[trigger] ms2[j]).x, ms2[j].y)
            &&& forall|j: int| 0 <= j < pool2.len() ==> 1 <= #[trigger] pool2[j] <= MAGAZINE_SIZE
            &&& forall|i: int, j: int| 0 <= i < j < ms2.len() ==> ms2[i].num != ms2[j].num
            &&& forall|i: int, j: int| 0 <= i < j < pool2.len() ==> pool2[i] != pool2[j]
            &&& forall|i: int, j: int|
                0 <= i < pool2.len() && 0 <= j < ms2.len() ==> pool2[i] != ms2[j].num
            &&& forall|j: int|
                0 <= j < ms2.len() ==> exists|i: int|
                    0 <= i < s.len() && #[trigger] ms2[j] == s[i]
            &&& forall|j: int|
                0 <= j < freed_labels(s).len() ==> exists|i: int|
                    0 <= i < s.len() && #[trigger] freed_labels(s)[j] == s[i].num
        }),
    decreases s.len(),
{
    if s.len() > 0 {
        let s0 = s.drop_last();
        lemma_cull_marbles_wf(s0, pool);
        let last = s.last();
        let ms2 = surviving_marbles(s);
        let pool2 = pool + freed_labels(s);
        let ms1 = surviving_marbles(s0);
        let pool1 = pool + freed_labels(s0);
        if in_bounds(last.x, last.y) {
            assert(ms2 == ms1.push(last));
            assert(pool2 =~= pool1);
            assert forall|i: int, j: int| 0 <= i < j < ms2.len() implies ms2[i].num
                != ms2[j].num by {
                if j == ms2.len() - 1 {
                    let w = choose|w: int| 0 <= w < s0.len() && ms1[i] == s0[w];
                    assert(s[w] == s0[w]);
                }
            }
            assert forall|i: int, j: int|
                0 <= i < pool2.len() && 0 <= j < ms2.len() implies pool2[i] != ms2[j].num by {
                if j == ms2.len() - 1 {
                    if i < pool.len() {
                    } else {
                        let fj = i - pool.len();
                        let w = choose|w: int|
                            0 <= w < s0.len() && freed_labels(s0)[fj] == s0[w].num;
                        assert(s[w] == s0[w]);
                    }
                }
            }
        } else {
            assert(ms2 == ms1);
            assert(pool2 =~= pool1.push(last.num));
            assert forall|i: int, j: int| 0 <= i < j < pool2.len() implies pool2[i]
                != pool2[j] by {
                if j == pool2.len() - 1 {
                    if i < pool.len() {
                    } else {
                        let fi = i - pool.len();
                        let w = choose|w: int|
                            0 <= w < s0.len() && freed_labels(s0)[fi] == s0[w].num;
                        assert(s[w] == s0[w]);
                    }
                }
            }
            assert forall|i: int, j: int|
                0 <= i < pool2.len() && 0 <= j < ms2.len() implies pool2[i] != ms2[j].num by {
                if i == pool2.len() - 1 {
                    let w = choose|w: int| 0 <= w < s0.len() && ms1[j] == s0[w];
                    assert(s[w] == s0[w]);
                }
            }
        }
    }
}

/// Culling keeps the enemy bookkeeping well formed: entities and records are
/// culled in lockstep, so the alignment, uniqueness and stat bounds carry
/// over, and no record is added.
proof fn lemma_cull_cars_wf(cs: Seq<CarSprite>, dir: Seq<Enemy>, cars_left: u32)
    requires
        cs.len() == dir.len(),
        forall|i: int| 0 <= i < cs.len() ==> (#[trigger] cs[i]).num == dir[i].label,
        forall|i: int, j: int| 0 <= i < j < dir.len() ==> dir[i].label != dir[j].label,
        forall|i: int| 0 <= i < dir.len() ==> 1 <= (#[trigger] dir[i]).health <= 2,
        forall|i: int| 0 <= i < dir.len() ==> 0 < (#[trigger] dir[i]).speed <= MAX_SPEED,
        forall|i: int|
            0 <= i < dir.len() ==> cars_left <= (#[trigger] dir[i]).label < 0xffff_ffff,
        forall|i: int| 0 <= i < cs.len() ==> pos_ok((#[trigger] cs[i]).x, cs[i].y),
    ensures
        ({
            let cs2 = surviving_cars(cs);
            let dir2 = surviving_records(cs, dir);
            &&& cs2.len() == dir2.len() <= cs.len()
            &&& forall|i: int| 0 <= i < cs2.len() ==> (#[trigger] cs2[i]).num == dir2[i].label
            &&& forall|i: int, j: int| 0 <= i < j < dir2.len() ==> dir2[i].label != dir2[j].label
            &&& forall|i: int| 0 <= i < dir2.len() ==> 1 <= (#[trigger] dir2[i]).health <= 2
            &&& forall|i: int| 0 <= i < dir2.len() ==> 0 < (#[trigger] dir2[i]).speed <= MAX_SPEED
            &&& forall|i: int|
                0 <= i < dir2.len() ==> cars_left <= (#[trigger] dir2[i]).label < 0xffff_ffff
            &&& forall|i: int| 0 <= i < cs2.len() ==> pos_ok((#[trigger] cs2[i]).x, cs2[i].y)
            &&& forall|j: int|
                0 <= j < dir2.len() ==> exists|i: int|
                    0 <= i < dir.len() && #[trigger] dir2[j] == dir[i]
        }),
    decreases cs.len(),
{
    if cs.len() > 0 {
        let cs0 = cs.drop_last();
        let dir0 = dir.drop_last();
        lemma_cull_cars_wf(cs0, dir0, cars_left);
        let cs2 = surviving_cars(cs);
        let dir2 = surviving_records(cs, dir);
        let dir1 = surviving_records(cs0, dir0);
        if in_bounds(cs.last().x, cs.last().y) {
            assert(cs2 == surviving_cars(cs0).push(cs.last()));
            assert(dir2 == dir1.push(dir.last()));
            assert forall|i: int, j: int| 0 <= i < j < dir2.len() implies dir2[i].label
                != dir2[j].label by {
                if j == dir2.len() - 1 {
                    let w = choose|w: int| 0 <= w < dir0.len() && dir1[i] == dir0[w];
                    assert(dir[w] == dir0[w]);
                }
            }
        }
    }
}

/// How the motion phase relates the state before (`a`) to the state after
/// (`b`): every projectile, enemy and power-up moved by its own rule,
/// nothing created, destroyed or otherwise touched.
pub open spec fn advance_rel(a: GameState, b: GameState, dt_ms: u32, wave_mpx: i32) -> bool {
    &&& b.registry.marbles@.len() == a.registry.marbles@.len()
    &&& forall|i: int|
        0 <= i < a.registry.marbles@.len() ==> b.registry.marbles@[i] == moved_marble(
            #[trigger] a.registry.marbles@[i],
            dt_ms,
        )
    &&& b.registry.cars@.len() == a.registry.cars@.len()
    &&& forall|i: int|
        0 <= i < a.registry.cars@.len() ==> b.registry.cars@[i] == moved_car(
            #[trigger] a.registry.cars@[i],
            a.enemies_vector@[i],
            dt_ms,
            wave_mpx,
        )
    &&& match a.registry.power {
        Some(p) => b.registry.power == Some(moved_power(p, dt_ms)),
        None => b.registry.power is None,
    }
    &&& b.marble_labels == a.marble_labels
    &&& b.enemies_vector == a.enemies_vector
    &&& b.registry.player_x == a.registry.player_x
    &&& b.cars_left == a.cars_left
    &&& b.spawn_timer == a.spawn_timer
    &&& b.explosion_timer == a.explosion_timer
    &&& b.score == a.score
    &&& b.high_score == a.high_score
    &&& b.game_over == a.game_over
    &&& b.power_spawned == a.power_spawned
}

/// How the culling phase relates the state before (`a`) to the state after
/// (`b`): out-of-bounds entities gone, their projectile labels back in the
/// pool, their enemy records out of the directory, nothing else touched.
pub open spec fn cull_rel(a: GameState, b: GameState) -> bool {
    &&& b.registry.marbles@ == surviving_marbles(a.registry.marbles@)
    &&& b.marble_labels@ == a.marble_labels@ + freed_labels(a.registry.marbles@)
    &&& b.registry.cars@ == surviving_cars(a.registry.cars@)
    &&& b.enemies_vector@ == surviving_records(a.registry.cars@, a.enemies_vector@)
    &&& match a.registry.power {
        Some(p) => b.registry.power == if in_bounds(p.x, p.y) {
            Some(p)
        } else {
            None::<PowerSprite>
        },
        None => b.registry.power is None,
    }
    &&& b.registry.player_x == a.registry.player_x
    &&& b.cars_left == a.cars_left
    &&& b.spawn_timer == a.spawn_timer
    &&& b.explosion_timer == a.explosion_timer
    &&& b.score == a.score
    &&& b.high_score == a.high_score
    &&& b.game_over == a.game_over
    &&& b.power_spawned == a.power_spawned
}

impl GameState {
    /// One tick of motion: every projectile rises, every enemy advances at
    /// its record's speed (weaving movers also shift by `wave_mpx`, the
    /// driver-computed sine offset for this tick), and the power-up advances
    /// at its fixed speed.  Nothing is created or destroyed here.
    #[verifier::loop_isolation(false)]
    pub fn advance_entities(&mut self, dt_ms: u32, wave_mpx: i32)
        requires
            old(self).wf(),
        ensures
            final(self).wf(),
            advance_rel(*old(self), *final(self), dt_ms, wave_mpx),
    {
        let ghost ms0 = self.registry.marbles@;
        let marble_step: i64 = 600i64 * (dt_ms as i64);
        let mut i: usize = 0;
        while i < self.registry.marbles.len()
            invariant
                0 <= i <= self.registry.marbles@.len(),
                self.registry.marbles@.len() == ms0.len(),
                marble_step == MARBLE_SPEED * dt_ms,
                0 <= marble_step <= STEP_LIMIT,
                forall|j: int|
                    0 <= j < i ==> self.registry.marbles@[j] == moved_marble(
                        #[trigger] ms0[j],
                        dt_ms,
                    ),
                forall|j: int| i <= j < ms0.len() ==> self.registry.marbles@[j] == ms0[j],
                forall|j: int| 0 <= j < ms0.len() ==> pos_ok((#[trigger] ms0[j]).x, ms0[j].y),
                self.marble_labels == old(self).marble_labels,
                self.enemies_vector == old(self).enemies_vector,
                self.registry.cars == old(self).registry.cars,
                self.registry.power == old(self).registry.power,
                self.registry.player_x == old(self).registry.player_x,
                self.cars_left == old(self).cars_left,
                self.spawn_timer == old(self).spawn_timer,
                self.explosion_timer == old(self).explosion_timer,
                self.score == old(self).score,
                self.high_score == old(self).high_score,
                self.game_over == old(self).game_over,
                self.power_spawned == old(self).power_spawned,
            decreases ms0.len() - i,
        {
            let m = self.registry.marbles[i];
            proof {
                assert(self.registry.marbles@[i as int] == ms0[i as int]);
                assert(pos_ok(ms0[i as int].x, ms0[i as int].y));
            }
            let y2 = advance_coord(m.y, marble_step);
            self.registry.marbles.set(i, Marble { num: m.num, x: m.x, y: y2 });
            i += 1;
        }
        let ghost cs0 = self.registry.cars@;
        let ghost dir0 = self.enemies_vector@;
        let ghost ms1 = self.registry.marbles@;
        let mut i: usize = 0;
        while i < self.registry.cars.len()
            invariant
                0 <= i <= self.registry.cars@.len(),
                self.registry.cars@.len() == cs0.len(),
                self.enemies_vector@ == dir0,
                cs0.len() == dir0.len(),
                forall|j: int|
                    0 <= j < i ==> self.registry.cars@[j] == moved_car(
                        #[trigger] cs0[j],
                        dir0[j],
                        dt_ms,
                        wave_mpx,
                    ),
                forall|j: int| i <= j < cs0.len() ==> self.registry.cars@[j] == cs0[j],
                forall|j: int| 0 <= j < cs0.len() ==> pos_ok((#[trigger] cs0[j]).x, cs0[j].y),
                forall|j: int|
                    0 <= j < dir0.len() ==> 0 < (#[trigger] dir0[j]).speed <= MAX_SPEED,
                self.registry.marbles@ == ms1,
                self.marble_labels == old(self).marble_labels,
                self.enemies_vector == old(self).enemies_vector,
                self.registry.power == old(self).registry.power,
                self.registry.player_x == old(self).registry.player_x,
                self.cars_left == old(self).cars_left,
                self.spawn_timer == old(self).spawn_timer,
                self.explosion_timer == old(self).explosion_timer,
                self.score == old(self).score,
                self.high_score == old(self).high_score,
                self.game_over == old(self).game_over,
                self.power_spawned == old(self).power_spawned,
            decreases cs0.len() - i,
        {
            let c = self.registry.cars[i];
            let speed = self.enemies_vector[i].speed;
            proof {
                assert(self.registry.cars@[i as int] == cs0[i as int]);
                assert(pos_ok(cs0[i as int].x, cs0[i as int].y));
                assert(0 < dir0[i as int].speed <= MAX_SPEED);
            }
            proof {
                assert(0 <= (speed as i64) * (dt_ms as i64) <= STEP_LIMIT) by (nonlinear_arith)
                    requires
                        0 <= speed <= 600,
                        0 <= dt_ms <= 0xffff_ffffu64,
                ;
            }
            let d: i64 = (speed as i64) * (dt_ms as i64);
            let x2 = advance_coord(c.x, d);
            let y2 = if self.enemies_vector[i].behavior == crate::types::Behavior::Sinusoidal {
                advance_coord(c.y, wave_mpx as i64)
            } else {
                c.y
            };
            self.registry.cars.set(i, CarSprite { num: c.num, x: x2, y: y2 });
            i += 1;
        }
        let power_step: i64 = 300i64 * (dt_ms as i64);
        if let Some(p) = self.registry.power {
            self.registry.power = Some(PowerSprite { x: advance_coord(p.x, power_step), y: p.y });
        }
        proof {
            let s2 = self.registry.marbles@;
            let cs2 = self.registry.cars@;
            assert forall|j: int| 0 <= j < s2.len() implies 1 <= (#[trigger] s2[j]).num
                <= MAGAZINE_SIZE && pos_ok(s2[j].x, s2[j].y) && s2[j].num == ms0[j].num by {
                assert(s2[j] == moved_marble(ms0[j], dt_ms));
            }
            assert forall|j: int| 0 <= j < cs2.len() implies pos_ok(
                (#[trigger] cs2[j]).x,
                cs2[j].y,
            ) && cs2[j].num == cs0[j].num by {
                assert(cs2[j] == moved_car(cs0[j], dir0[j], dt_ms, wave_mpx));
            }
            assert forall|i: int, j: int| 0 <= i < j < s2.len() implies s2[i].num
                != s2[j].num by {
                assert(s2[i].num == ms0[i].num && s2[j].num == ms0[j].num);
            }
        }
    }

    /// Culling: every entity past the upper or right-hand bound is destroyed;
    /// a culled projectile's label returns to the pool and a culled enemy's
    /// record leaves the directory, in the same pass.
    #[verifier::loop_isolation(false)]
    pub fn cull_out_of_bounds(&mut self)
        requires
            old(self).wf(),
        ensures
            final(self).wf(),
            cull_rel(*old(self), *final(self)),
    {
        let ghost ms0 = self.registry.marbles@;
        let ghost pool0 = self.marble_labels@;
        let mut kept: Vec<Marble> = Vec::new();
        let mut i: usize = 0;
        proof {
            assert(ms0.take(0) =~= Seq::<Marble>::empty());
            assert(pool0 + freed_labels(ms0.take(0)) =~= pool0);
        }
        while i < self.registry.marbles.len()
            invariant
                0 <= i <= ms0.len(),
                self.registry.marbles@ == ms0,
                kept@ == surviving_marbles(ms0.take(i as int)),
                self.marble_labels@ == pool0 + freed_labels(ms0.take(i as int)),
                self.enemies_vector == old(self).enemies_vector,
                self.registry.cars == old(self).registry.cars,
                self.registry.power == old(self).registry.power,
                self.registry.player_x == old(self).registry.player_x,
                self.cars_left == old(self).cars_left,
                self.spawn_timer == old(self).spawn_timer,
                self.explosion_timer == old(self).explosion_timer,
                self.score == old(self).score,
                self.high_score == old(self).high_score,
                self.game_over == old(self).game_over,
                self.power_spawned == old(self).power_spawned,
            decreases ms0.len() - i,
        {
            let m = self.registry.marbles[i];
            proof {
                lemma_cull_marbles_step(ms0, i as int);
            }
            if m.y <= CULL_Y && m.x <= CULL_X {
                kept.push(m);
            } else {
                self.marble_labels.push(m.num);
                proof {
                    assert(self.marble_labels@ =~= pool0 + freed_labels(
                        ms0.take(i as int),
                    ).push(m.num));
                }
            }
            i += 1;
        }
        proof {
            assert(ms0.take(ms0.len() as int) =~= ms0);
        }
        self.registry.marbles = kept;

        let ghost cs0 = self.registry.cars@;
        let ghost dir0 = self.enemies_vector@;
        let mut kept_cars: Vec<CarSprite> = Vec::new();
        let mut kept_dir: Vec<Enemy> = Vec::new();
        let mut i: usize = 0;
        proof {
            assert(cs0.take(0) =~= Seq::<CarSprite>::empty());
            assert(dir0.take(0) =~= Seq::<Enemy>::empty());
        }
        while i < self.registry.cars.len()
            invariant
                0 <= i <= cs0.len(),
                self.registry.cars@ == cs0,
                self.enemies_vector@ == dir0,
                cs0.len() == dir0.len(),
                kept_cars@ == surviving_cars(cs0.take(i as int)),
                kept_dir@ == surviving_records(cs0.take(i as int), dir0.take(i as int)),
            decreases cs0.len() - i,
        {
            let c = self.registry.cars[i];
            proof {
                lemma_cull_cars_step(cs0, dir0, i as int);
            }
            if c.y <= CULL_Y && c.x <= CULL_X {
                kept_cars.push(c);
                kept_dir.push(self.enemies_vector[i]);
            }
            i += 1;
        }
        proof {
            assert(cs0.take(cs0.len() as int) =~= cs0);
            assert(dir0.take(dir0.len() as int) =~= dir0);
        }
        self.registry.cars = kept_cars;
        self.enemies_vector = kept_dir;

        let cull_power = match &self.registry.power {
            Some(p) => !(p.y <= CULL_Y && p.x <= CULL_X),
            None => false,
        };
        if cull_power {
            self.registry.power = None;
        }
        proof {
            lemma_cull_marbles_wf(ms0, pool0);
            lemma_cull_cars_wf(cs0, dir0, self.cars_left);
        }
    }
}

/// Adds a bounded displacement to a position, clamping into the fixed-point
/// range (never reached by in-bounds play).
fn advance_coord(p: i64, d: i64) -> (r: i64)
    requires
        -POS_LIMIT <= p <= POS_LIMIT,
        -STEP_LIMIT <= d <= STEP_LIMIT,
    ensures
        r == clamp_pos(p + d),
        -POS_LIMIT <= r <= POS_LIMIT,
{
    let s = p + d;
    if s < -POS_LIMIT {
        -POS_LIMIT
    } else if s > POS_LIMIT {
        POS_LIMIT
    } else {
        s
    }
}

} // verus!
