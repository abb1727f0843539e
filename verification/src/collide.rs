use vstd::prelude::*;

use crate::state::{car_live, dir_index, marble_index, marble_live, GameState};
use crate::types::{CarSprite, CollisionEvent, Cue, Enemy, EntityId, Marble, PowerSprite};

verus! {

/// The slice of the game state that collision resolution may touch, as one
/// mathematical value, together with the sound cues emitted so far.
#[verifier::ext_equal]
pub struct HitModel {
    pub pool: Seq<u32>,
    pub marbles: Seq<Marble>,
    pub cars: Seq<CarSprite>,
    pub dir: Seq<Enemy>,
    pub power: Option<PowerSprite>,
    pub score: u32,
    pub high_score: u32,
    pub cues: Seq<Cue>,
}

/// Reads the resolution-relevant slice out of a game state.
pub open spec fn hit_model(gs: GameState, cues: Seq<Cue>) -> HitModel {
    HitModel {
        pool: gs.marble_labels@,
        marbles: gs.registry.marbles@,
        cars: gs.registry.cars@,
        dir: gs.enemies_vector@,
        power: gs.registry.power,
        score: gs.score,
        high_score: gs.high_score,
        cues,
    }
}

/// A projectile named in a qualifying pair: if it is still live its entity
/// is destroyed and its label returns to the pool; a label already resolved
/// earlier in the same drain is silently ignored.
pub open spec fn hit_marble(m: HitModel, n: u32) -> HitModel {
    if marble_live(m.marbles, n) {
        HitModel {
            marbles: m.marbles.remove(marble_index(m.marbles, n)),
            pool: m.pool.push(n),
            ..m
        }
    } else {
        m
    }
}

/// An enemy named in a qualifying pair: its record loses one health; at zero
/// the entity and the (index-aligned) record go, the kill is scored, and the
/// destroy cue plays.  A label whose record is already gone is treated as
/// resolved, not as an error.
pub open spec fn hit_car(m: HitModel, n: u32) -> HitModel {
    if car_live(m.dir, n) {
        let i = dir_index(m.dir, n);
        if m.dir[i].health > 1 {
            HitModel {
                dir: m.dir.update(
                    i,
                    Enemy { health: (m.dir[i].health - 1) as u32, ..m.dir[i] },
                ),
                ..m
            }
        } else {
            let sc = (m.score + 1) as u32;
            HitModel {
                dir: m.dir.remove(i),
                cars: m.cars.remove(i),
                score: sc,
                high_score: if sc > m.high_score {
                    sc
                } else {
                    m.high_score
                },
                cues: m.cues.push(Cue::EnemyDown),
                ..m
            }
        }
    } else {
        m
    }
}

/// The power-up consumed by a projectile: its entity goes, the blast cue
/// plays, and every live enemy is destroyed and scored in one pass.
pub open spec fn hit_power(m: HitModel) -> HitModel {
    if m.power is Some {
        let sc = (m.score + m.dir.len()) as u32;
        HitModel {
            power: None,
            cars: Seq::empty(),
            dir: Seq::empty(),
            score: sc,
            high_score: if sc > m.high_score {
                sc
            } else {
                m.high_score
            },
            cues: m.cues.push(Cue::AreaBlast),
            ..m
        }
    } else {
        m
    }
}

/// One label of a qualifying pair: its category's action, then the generic
/// impact cue, whatever the category.
pub open spec fn collide_label(m: HitModel, id: EntityId) -> HitModel {
    let m2 = match id {
        EntityId::Player => m,
        EntityId::Marble(n) => hit_marble(m, n),
        EntityId::Car(n) => hit_car(m, n),
        EntityId::Power => hit_power(m),
    };
    HitModel { cues: m2.cues.push(Cue::Impact), ..m2 }
}

/// One event: only begin-of-contact pairs naming at least one projectile are
/// processed, first label then second; everything else is ignored.
pub open spec fn collide_event(m: HitModel, e: CollisionEvent) -> HitModel {
    if e.begin && (e.a is Marble || e.b is Marble) {
        collide_label(collide_label(m, e.a), e.b)
    } else {
        m
    }
}

/// A whole drain of collision events, resolved in order.
pub open spec fn resolve_events(m: HitModel, evs: Seq<CollisionEvent>) -> HitModel
    decreases evs.len(),
{
    if evs.len() == 0 {
        m
    } else {
        resolve_events(collide_event(m, evs[0]), evs.drop_first())
    }
}

/// How the collision-resolution phase relates the state before (`a`) to the
/// state after (`b`) and the cues it emits: exactly the fold of
/// `collide_event` over the drain, with the tick's other bookkeeping
/// untouched.
pub open spec fn collide_rel(
    a: GameState,
    b: GameState,
    events: Seq<CollisionEvent>,
    cues: Seq<Cue>,
) -> bool {
    &&& hit_model(b, cues) == resolve_events(hit_model(a, Seq::empty()), events)
    &&& b.cars_left == a.cars_left
    &&& b.spawn_timer == a.spawn_timer
    &&& b.explosion_timer == a.explosion_timer
    &&& b.game_over == a.game_over
    &&& b.power_spawned == a.power_spawned
    &&& b.registry.player_x == a.registry.player_x
    &&& b.high_score >= a.high_score
}

/// With no enemy live and none recorded, no drain can change the score or
/// the high score: enemy hits miss, and an area blast scores nothing.
pub proof fn lemma_resolve_no_enemies(m: HitModel, evs: Seq<CollisionEvent>)
    requires
        m.dir.len() == 0,
        m.cars.len() == 0,
        m.score <= m.high_score,
    ensures
        resolve_events(m, evs).score == m.score,
        resolve_events(m, evs).high_score == m.high_score,
        resolve_events(m, evs).dir.len() == 0,
        resolve_events(m, evs).cars.len() == 0,
    decreases evs.len(),
{
    if evs.len() > 0 {
        let m1 = collide_event(m, evs[0]);
        assert(m1.score == m.score && m1.high_score == m.high_score && m1.dir.len() == 0
            && m1.cars.len() == 0);
        lemma_resolve_no_enemies(m1, evs.drop_first());
    }
}

impl GameState {
    /// Index of the live projectile carrying `n`, if any.
    #[verifier::loop_isolation(false)]
    fn find_marble(&self, n: u32) -> (r: Option<usize>)
        ensures
            match r {
                Some(i) => i < self.registry.marbles@.len() && self.registry.marbles@[i as int].num
                    == n,
                None => !marble_live(self.registry.marbles@, n),
            },
    {
        let mut i: usize = 0;
        while i < self.registry.marbles.len()
            invariant
                0 <= i <= self.registry.marbles@.len(),
                forall|j: int| 0 <= j < i ==> self.registry.marbles@[j].num != n,
            decreases self.registry.marbles@.len() - i,
        {
            if self.registry.marbles[i].num == n {
                return Some(i);
            }
            i += 1;
        }
        proof {
            assert forall|j: int|
                0 <= j < self.registry.marbles@.len() implies self.registry.marbles@[j].num
                != n by {}
        }
        None
    }

    /// Index of the directory record labelled `n`, if any.
    #[verifier::loop_isolation(false)]
    fn find_enemy(&self, n: u32) -> (r: Option<usize>)
        ensures
            match r {
                Some(i) => i < self.enemies_vector@.len() && self.enemies_vector@[i as int].label
                    == n,
                None => !car_live(self.enemies_vector@, n),
            },
    {
        let mut i: usize = 0;
        while i < self.enemies_vector.len()
            invariant
                0 <= i <= self.enemies_vector@.len(),
                forall|j: int| 0 <= j < i ==> self.enemies_vector@[j].label != n,
            decreases self.enemies_vector@.len() - i,
        {
            if self.enemies_vector[i].label == n {
                return Some(i);
            }
            i += 1;
        }
        None
    }

    /// Executes `hit_marble` on the state.
    fn apply_marble_hit(&mut self, n: u32, cues: &mut Vec<Cue>)
        requires
            old(self).wf(),
        ensures
            final(self).wf(),
            hit_model(*final(self), final(cues)@) == hit_marble(
                hit_model(*old(self), old(cues)@),
                n,
            ),
            final(self).cars_left == old(self).cars_left,
            final(self).spawn_timer == old(self).spawn_timer,
            final(self).explosion_timer == old(self).explosion_timer,
            final(self).game_over == old(self).game_over,
            final(self).power_spawned == old(self).power_spawned,
            final(self).registry.player_x == old(self).registry.player_x,
            final(self).high_score == old(self).high_score,
    {
        let ghost ms0 = self.registry.marbles@;
        if let Some(i) = self.find_marble(n) {
            proof {
                assert(marble_live(ms0, n));
                let w = marble_index(ms0, n);
                assert(0 <= w < ms0.len() && ms0[w].num == n);
                assert(w == i as int);
            }
            self.registry.marbles.remove(i);
            self.marble_labels.push(n);
            proof {
                let ms2 = self.registry.marbles@;
                assert(ms2 == ms0.remove(i as int));
                assert forall|a: int, b: int| 0 <= a < b < ms2.len() implies ms2[a].num
                    != ms2[b].num by {}
                assert forall|a: int, b: int|
                    0 <= a < self.marble_labels@.len() && 0 <= b < ms2.len() implies self
                    .marble_labels@[a] != ms2[b].num by {
                    if a < self.marble_labels@.len() - 1 {
                    } else {
                        assert(self.marble_labels@[a] == n);
                    }
                }
                assert(hit_model(*self, cues@) =~= hit_marble(hit_model(*old(self), cues@), n));
            }
        }
    }

    /// Executes `hit_car` on the state.
    fn apply_car_hit(&mut self, n: u32, cues: &mut Vec<Cue>)
        requires
            old(self).wf(),
        ensures
            final(self).wf(),
            hit_model(*final(self), final(cues)@) == hit_car(hit_model(*old(self), old(cues)@), n),
            final(self).cars_left == old(self).cars_left,
            final(self).spawn_timer == old(self).spawn_timer,
            final(self).explosion_timer == old(self).explosion_timer,
            final(self).game_over == old(self).game_over,
            final(self).power_spawned == old(self).power_spawned,
            final(self).registry.player_x == old(self).registry.player_x,
            final(self).high_score >= old(self).high_score,
    {
        let ghost dir0 = self.enemies_vector@;
        let ghost cs0 = self.registry.cars@;
        if let Some(i) = self.find_enemy(n) {
            proof {
                assert(car_live(dir0, n));
                let w = dir_index(dir0, n);
                assert(0 <= w < dir0.len() && dir0[w].label == n);
                assert(w == i as int);
            }
            let e = self.enemies_vector[i];
            if e.health > 1 {
                self.enemies_vector.set(
                    i,
                    Enemy { label: e.label, health: e.health - 1, speed: e.speed, behavior: e.behavior },
                );
                proof {
                    let dir2 = self.enemies_vector@;
                    assert(dir2 == dir0.update(
                        i as int,
                        Enemy { health: (dir0[i as int].health - 1) as u32, ..dir0[i as int] },
                    ));
                    assert(hit_model(*self, cues@) =~= hit_car(hit_model(*old(self), cues@), n));
                }
            } else {
                self.enemies_vector.remove(i);
                self.registry.cars.remove(i);
                self.increment_score();
                cues.push(Cue::EnemyDown);
                proof {
                    let dir2 = self.enemies_vector@;
                    let cs2 = self.registry.cars@;
                    assert(dir2 == dir0.remove(i as int));
                    assert(cs2 == cs0.remove(i as int));
                    assert forall|a: int, b: int| 0 <= a < b < dir2.len() implies dir2[a].label
                        != dir2[b].label by {}
                    assert forall|a: int| 0 <= a < cs2.len() implies (#[trigger] cs2[a]).num
                        == dir2[a].label by {}
                    assert(hit_model(*self, cues@) =~= hit_car(hit_model(*old(self), old(cues)@), n));
                }
            }
        }
    }

    /// Executes `hit_power` on the state: the area kill scores each enemy
    /// individually, so the high score tracks the running score.
    #[verifier::loop_isolation(false)]
    fn apply_power_hit(&mut self, cues: &mut Vec<Cue>)
        requires
            old(self).wf(),
        ensures
            final(self).wf(),
            hit_model(*final(self), final(cues)@) == hit_power(hit_model(*old(self), old(cues)@)),
            final(self).cars_left == old(self).cars_left,
            final(self).spawn_timer == old(self).spawn_timer,
            final(self).explosion_timer == old(self).explosion_timer,
            final(self).game_over == old(self).game_over,
            final(self).power_spawned == old(self).power_spawned,
            final(self).registry.player_x == old(self).registry.player_x,
            final(self).high_score >= old(self).high_score,
    {
        if self.registry.power.is_some() {
            self.registry.power = None;
            cues.push(Cue::AreaBlast);
            let ghost dir0 = self.enemies_vector@;
            let ghost cues1 = cues@;
            while self.enemies_vector.len() > 0
                invariant
                    self.enemies_vector@.len() <= dir0.len(),
                    self.enemies_vector@ == dir0.take(self.enemies_vector@.len() as int),
                    self.registry.cars@.len() == self.enemies_vector@.len(),
                    self.registry.cars@ == old(self).registry.cars@.take(
                        self.enemies_vector@.len() as int,
                    ),
                    self.score == old(self).score + (dir0.len() - self.enemies_vector@.len()),
                    self.high_score == if self.score > old(self).high_score {
                        self.score as int
                    } else {
                        old(self).high_score as int
                    },
                    self.score + self.cars_left + self.enemies_vector@.len()
                        <= crate::types::CARS_PER_ROUND,
                    self.marble_labels == old(self).marble_labels,
                    self.registry.marbles == old(self).registry.marbles,
                    self.registry.power is None,
                    self.registry.player_x == old(self).registry.player_x,
                    self.cars_left == old(self).cars_left,
                    self.spawn_timer == old(self).spawn_timer,
                    self.explosion_timer == old(self).explosion_timer,
                    self.game_over == old(self).game_over,
                    self.power_spawned == old(self).power_spawned,
                    cues@ == cues1,
                decreases self.enemies_vector@.len(),
            {
                proof {
                    assert(dir0.take(self.enemies_vector@.len() as int).drop_last() =~= dir0.take(
                        self.enemies_vector@.len() - 1,
                    ));
                    assert(old(self).registry.cars@.take(
                        self.registry.cars@.len() as int,
                    ).drop_last() =~= old(self).registry.cars@.take(self.registry.cars@.len() - 1));
                }
                self.enemies_vector.pop();
                self.registry.cars.pop();
                self.increment_score();
            }
            proof {
                assert(self.enemies_vector@ =~= Seq::<Enemy>::empty());
                assert(self.registry.cars@ =~= Seq::<CarSprite>::empty());
                assert(hit_model(*self, cues@) =~= hit_power(hit_model(*old(self), old(cues)@)));
            }
        }
    }

    /// Executes `collide_label` on the state.
    fn apply_label(&mut self, id: EntityId, cues: &mut Vec<Cue>)
        requires
            old(self).wf(),
        ensures
            final(self).wf(),
            hit_model(*final(self), final(cues)@) == collide_label(
                hit_model(*old(self), old(cues)@),
                id,
            ),
            final(self).cars_left == old(self).cars_left,
            final(self).spawn_timer == old(self).spawn_timer,
            final(self).explosion_timer == old(self).explosion_timer,
            final(self).game_over == old(self).game_over,
            final(self).power_spawned == old(self).power_spawned,
            final(self).registry.player_x == old(self).registry.player_x,
            final(self).high_score >= old(self).high_score,
    {
        match id {
            EntityId::Player => {},
            EntityId::Marble(n) => self.apply_marble_hit(n, cues),
            EntityId::Car(n) => self.apply_car_hit(n, cues),
            EntityId::Power => self.apply_power_hit(cues),
        }
        cues.push(Cue::Impact);
        proof {
            assert(hit_model(*self, cues@) =~= collide_label(
                hit_model(*old(self), old(cues)@),
                id,
            ));
        }
    }

    /// Drains one tick's collision events, in order.  The returned cues and
    /// the new state are exactly the fold of `collide_event` over the drain:
    /// begin-of-contact pairs naming a projectile are resolved label by
    /// label, everything else is ignored.
    #[verifier::loop_isolation(false)]
    pub fn resolve_collisions(&mut self, events: &Vec<CollisionEvent>) -> (cues: Vec<Cue>)
        requires
            old(self).wf(),
        ensures
            final(self).wf(),
            collide_rel(*old(self), *final(self), events@, cues@),
    {
        let mut cues: Vec<Cue> = Vec::new();
        let ghost m0 = hit_model(*self, Seq::empty());
        let mut k: usize = 0;
        proof {
            assert(events@.skip(0) =~= events@);
            assert(cues@ =~= Seq::<Cue>::empty());
            assert(hit_model(*self, cues@) =~= m0);
        }
        while k < events.len()
            invariant
                self.wf(),
                0 <= k <= events@.len(),
                resolve_events(hit_model(*self, cues@), events@.skip(k as int)) == resolve_events(
                    m0,
                    events@,
                ),
                self.cars_left == old(self).cars_left,
                self.spawn_timer == old(self).spawn_timer,
                self.explosion_timer == old(self).explosion_timer,
                self.game_over == old(self).game_over,
                self.power_spawned == old(self).power_spawned,
                self.registry.player_x == old(self).registry.player_x,
                self.high_score >= old(self).high_score,
            decreases events@.len() - k,
        {
            let e = events[k];
            proof {
                assert(events@.skip(k as int)[0] == events@[k as int]);
                assert(events@.skip(k as int).drop_first() =~= events@.skip(k as int + 1));
            }
            let qualifying = matches!(e.a, EntityId::Marble(_)) || matches!(
                e.b,
                EntityId::Marble(_),
            );
            if e.begin && qualifying {
                self.apply_label(e.a, &mut cues);
                self.apply_label(e.b, &mut cues);
            }
            k += 1;
        }
        proof {
            assert(events@.skip(events@.len() as int) =~= Seq::<CollisionEvent>::empty());
        }
        cues
    }
}

} // verus!
