use vstd::prelude::*;

use crate::collide::{collide_rel, hit_model, lemma_resolve_no_enemies};
use crate::motion::{advance_rel, cull_rel};
use crate::spawn::{powerup_rel, spawn_rel};
use crate::state::{fire_rel, player_step, restart_rel, GameState};
use crate::types::{
    CollisionEvent, Cue, CARS_PER_ROUND, POS_LIMIT, POWER_DELAY_MAX_MS, POWER_DELAY_MIN_MS,
};

verus! {

/// Everything the runtime hands the core for one tick, already classified:
/// the simulation step, the pointer, the input edges, this tick's vertical
/// wave offset for weaving movers (a sine of elapsed time, computed by the
/// driver since the core keeps no floating point), and the collision drain.
pub struct TickInput {
    pub dt_ms: u32,
    /// Pointer position in millipixels, absent while off-window.
    pub mouse_x: Option<i64>,
    /// Fresh fire edge (not held).
    pub fire_pressed: bool,
    /// Fresh restart edge.
    pub restart_pressed: bool,
    /// Vertical displacement of weaving movers this tick, millipixels.
    pub wave_mpx: i32,
    pub collisions: Vec<CollisionEvent>,
}

impl TickInput {
    /// The pointer stays within the fixed-point position range; a real
    /// window is orders of magnitude smaller.
    pub open spec fn valid(self) -> bool {
        self.mouse_x matches Some(x) ==> -POS_LIMIT <= x <= POS_LIMIT
    }
}

/// The intermediate states and cue runs of one tick, phase by phase: the
/// witness through which `tick_rel` composes the phase relations.
pub struct TickTrace {
    pub after_fire: GameState,
    pub after_move: GameState,
    pub after_cull: GameState,
    pub after_spawn: GameState,
    pub after_powerup: GameState,
    pub after_hits: GameState,
    pub fire_cues: Seq<Cue>,
    pub hit_cues: Seq<Cue>,
}

/// Does the trace `t` carry `pre` to `post` through the tick's phases in
/// their documented order?  Each conjunct is the respective phase's own
/// contract; the round-over and restart steps are deterministic, so they
/// need no trace field.
pub open spec fn trace_admits(
    pre: GameState,
    input: TickInput,
    post: GameState,
    cues: Seq<Cue>,
    t: TickTrace,
) -> bool {
    &&& fire_rel(player_step(pre, input.mouse_x), t.after_fire, input.fire_pressed, t.fire_cues)
    &&& advance_rel(t.after_fire, t.after_move, input.dt_ms, input.wave_mpx)
    &&& cull_rel(t.after_move, t.after_cull)
    &&& spawn_rel(t.after_cull, t.after_spawn, input.dt_ms)
    &&& powerup_rel(t.after_spawn, t.after_powerup, input.dt_ms)
    &&& collide_rel(t.after_powerup, t.after_hits, input.collisions@, t.hit_cues)
    &&& restart_rel(GameState::round_over_step(t.after_hits), post, input.restart_pressed)
    &&& cues == t.fire_cues + t.hit_cues + (if t.after_hits.round_over_due() {
        seq![Cue::RoundEnd]
    } else {
        Seq::<Cue>::empty()
    })
}

/// The whole tick as one relation between the state before, the input, the
/// state after and the emitted cues: some run of the nine phases — player
/// motion, firing, entity motion, culling, the spawn controller, the
/// power-up controller, collision resolution, the end-of-round step, restart
/// handling, in that order — produces exactly `post` and `cues`.  The
/// existential ranges over the intermediate states, whose only freedom is
/// the controllers' random draws.
pub open spec fn tick_rel(
    pre: GameState,
    input: TickInput,
    post: GameState,
    cues: Seq<Cue>,
) -> bool {
    exists|t: TickTrace| trace_admits(pre, input, post, cues, t)
}

/// One simulation tick, the fixed pipeline of phases in their documented
/// order.  Returns the sound cues to play.
///
/// The full effect is pinned by `tick_rel`: the new state and the cues are
/// exactly what the nine phase contracts, composed in order, allow.  The
/// remaining clauses are corollaries a caller wants by name: the
/// well-formedness invariant is preserved, the high score never goes down
/// and bounds the score, the turret follows the pointer, a shot that leaves
/// puts the launch cue first, and a restart edge while the round is over
/// starts the next round with the score cleared and the high score
/// untouched.
pub fn game_logic(gs: &mut GameState, input: &TickInput) -> (cues: Vec<Cue>)
    requires
        old(gs).wf(),
        input.valid(),
    ensures
        final(gs).wf(),
        tick_rel(*old(gs), *input, *final(gs), cues@),
        final(gs).high_score >= old(gs).high_score,
        final(gs).score <= final(gs).high_score,
        final(gs).registry.player_x == match input.mouse_x {
            Some(x) => x,
            None => old(gs).registry.player_x,
        },
        input.fire_pressed && old(gs).marble_labels@.len() > 0 ==> cues@.len() > 0 && cues@[0]
            == Cue::Launch,
        old(gs).game_over && input.restart_pressed ==> {
            &&& !final(gs).game_over
            &&& final(gs).score == 0
            &&& final(gs).cars_left == CARS_PER_ROUND
            &&& !final(gs).power_spawned
            &&& final(gs).high_score == old(gs).high_score
            &&& final(gs).explosion_timer.elapsed_ms == 0
            &&& POWER_DELAY_MIN_MS <= final(gs).explosion_timer.duration_ms < POWER_DELAY_MAX_MS
        },
{
    let mut cues: Vec<Cue> = Vec::new();
    gs.update_player(input.mouse_x);
    let mut fire_cues = gs.handle_fire(input.fire_pressed);
    let ghost s_fire = *gs;
    let ghost fc = fire_cues@;
    cues.append(&mut fire_cues);
    gs.advance_entities(input.dt_ms, input.wave_mpx);
    let ghost s_move = *gs;
    gs.cull_out_of_bounds();
    let ghost s_cull = *gs;
    gs.run_spawn(input.dt_ms);
    let ghost s_spawn = *gs;
    gs.run_powerup(input.dt_ms);
    let ghost s_power = *gs;
    let mut hit_cues = gs.resolve_collisions(&input.collisions);
    let ghost s_hits = *gs;
    let ghost hc = hit_cues@;
    proof {
        if s_power.enemies_vector@.len() == 0 {
            lemma_resolve_no_enemies(hit_model(s_power, Seq::empty()), input.collisions@);
        }
    }
    cues.append(&mut hit_cues);
    let mut over_cues = gs.evaluate_round_over();
    let ghost oc = over_cues@;
    cues.append(&mut over_cues);
    gs.handle_restart(input.restart_pressed);
    proof {
        let t = TickTrace {
            after_fire: s_fire,
            after_move: s_move,
            after_cull: s_cull,
            after_spawn: s_spawn,
            after_powerup: s_power,
            after_hits: s_hits,
            fire_cues: fc,
            hit_cues: hc,
        };
        assert(oc =~= (if s_hits.round_over_due() {
            seq![Cue::RoundEnd]
        } else {
            Seq::<Cue>::empty()
        }));
        assert(cues@ =~= fc + hc + oc);
        assert(trace_admits(*old(gs), *input, *gs, cues@, t));
    }
    cues
}

} // verus!
