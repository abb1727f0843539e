use vstd::prelude::*;

use crate::state::{car_live, GameState};
use crate::types::{CarSprite, MAGAZINE_SIZE};

verus! {

/// Is some live enemy entity carrying `num`?
pub open spec fn car_entity_live(cs: Seq<CarSprite>, num: u32) -> bool {
    exists|i: int| 0 <= i < cs.len() && cs[i].num == num
}

/// In every well-formed state, the enemy entity labels in the registry and
/// the labels in the enemy directory are the same set: no orphaned entity,
/// no orphaned record.  Every phase of the tick preserves well-formedness,
/// so this holds at all ticks.
pub proof fn lemma_enemy_bijection(gs: GameState)
    requires
        gs.wf(),
    ensures
        forall|n: u32|
            #[trigger] car_entity_live(gs.registry.cars@, n) <==> car_live(
                gs.enemies_vector@,
                n,
            ),
{
    let cs = gs.registry.cars@;
    let dir = gs.enemies_vector@;
    assert forall|n: u32| #[trigger] car_entity_live(cs, n) <==> car_live(dir, n) by {
        if car_entity_live(cs, n) {
            let i = choose|i: int| 0 <= i < cs.len() && cs[i].num == n;
            assert(dir[i].label == n);
        }
        if car_live(dir, n) {
            let i = choose|i: int| 0 <= i < dir.len() && dir[i].label == n;
            assert(cs[i].num == n);
        }
    }
}

/// In every well-formed state, the projectile pool size plus the number of
/// live projectile entities equals the magazine size: a label is never
/// duplicated and never lost.
pub proof fn lemma_magazine_conserved(gs: GameState)
    requires
        gs.wf(),
    ensures
        gs.marble_labels@.len() + gs.registry.marbles@.len() == MAGAZINE_SIZE,
{
}

/// In every well-formed state, the high score bounds the score.  That the
/// high score never decreases is stated by the `ensures` of every mutating
/// phase and of `crate::tick::game_logic`, restart included.
pub proof fn lemma_high_score_bounds(gs: GameState)
    requires
        gs.wf(),
    ensures
        gs.score <= gs.high_score,
{
}

/// Evaluating the end-of-round condition is idempotent: a second evaluation
/// without a state change in between leaves the state — and so the one
/// game-over display — exactly as the first left it.
pub proof fn lemma_round_over_idempotent(gs: GameState)
    ensures
        GameState::round_over_step(GameState::round_over_step(gs)) == GameState::round_over_step(
            gs,
        ),
{
}

} // verus!
