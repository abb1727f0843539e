use car_shoot::state::GameState;
use car_shoot::types::{CarKind, CollisionEvent, Cue, EntityId};

fn begin(a: EntityId, b: EntityId) -> CollisionEvent {
    CollisionEvent { a, b, begin: true }
}

#[test]
fn fire_empties_magazine_then_dry_fires() {
    let mut gs = GameState::default();
    gs.update_player(Some(10_000));
    for shot in 0..3u32 {
        let cues = gs.handle_fire(true);
        assert_eq!(cues, vec![Cue::Launch]);
        assert_eq!(gs.marble_labels.len(), 2 - shot as usize);
        assert_eq!(gs.registry.marbles.len(), 1 + shot as usize);
    }
    // Labels pop from the end of the pool.
    let nums: Vec<u32> = gs.registry.marbles.iter().map(|m| m.num).collect();
    assert_eq!(nums, vec![3, 2, 1]);
    assert_eq!(gs.registry.marbles[0].x, 10_000);
    assert_eq!(gs.registry.marbles[0].y, car_shoot::types::LAUNCH_Y);
    // A fourth fire with an empty pool is silently a no-op.
    let cues = gs.handle_fire(true);
    assert!(cues.is_empty());
    assert_eq!(gs.marble_labels.len(), 0);
    assert_eq!(gs.registry.marbles.len(), 3);
}

#[test]
fn tough_enemy_takes_two_hits() {
    let mut gs = GameState::default();
    gs.spawn_enemy(CarKind::Green, 0);
    assert_eq!(gs.enemies_vector.len(), 1);
    assert_eq!(gs.enemies_vector[0].label, 24);
    assert_eq!(gs.enemies_vector[0].health, 2);

    gs.handle_fire(true);
    let cues = gs.resolve_collisions(&vec![begin(EntityId::Marble(3), EntityId::Car(24))]);
    // First hit: health drops to 1, entity and record stay, no score.
    assert_eq!(gs.enemies_vector.len(), 1);
    assert_eq!(gs.enemies_vector[0].health, 1);
    assert_eq!(gs.registry.cars.len(), 1);
    assert_eq!(gs.score, 0);
    assert_eq!(cues, vec![Cue::Impact, Cue::Impact]);
    // The projectile went back to the pool.
    assert_eq!(gs.marble_labels, vec![1, 2, 3]);

    gs.handle_fire(true);
    let cues = gs.resolve_collisions(&vec![begin(EntityId::Marble(3), EntityId::Car(24))]);
    // Second hit: entity and record go, the kill is scored.
    assert_eq!(gs.enemies_vector.len(), 0);
    assert_eq!(gs.registry.cars.len(), 0);
    assert_eq!(gs.score, 1);
    assert_eq!(gs.high_score, 1);
    assert_eq!(cues, vec![Cue::Impact, Cue::EnemyDown, Cue::Impact]);
}

#[test]
fn area_effect_kills_all_three_at_once() {
    let mut gs = GameState::default();
    gs.spawn_enemy(CarKind::Red, 0);
    gs.spawn_enemy(CarKind::Blue, 1_000);
    gs.spawn_enemy(CarKind::Yellow, 2_000);
    // Let the power-up countdown elapse; its period is below ten seconds.
    gs.run_powerup(10_000);
    assert!(gs.power_spawned);
    assert!(gs.registry.power.is_some());

    let cues = gs.resolve_collisions(&vec![begin(EntityId::Marble(1), EntityId::Power)]);
    assert_eq!(gs.enemies_vector.len(), 0);
    assert_eq!(gs.registry.cars.len(), 0);
    assert_eq!(gs.score, 3);
    assert_eq!(gs.high_score, 3);
    assert!(gs.registry.power.is_none());
    // The named projectile was not live, so its label action is a no-op;
    // both labels still give the generic impact cue.
    assert_eq!(cues, vec![Cue::Impact, Cue::AreaBlast, Cue::Impact]);
}

#[test]
fn round_over_fires_exactly_once() {
    let mut gs = GameState::default();
    gs.cars_left = 0;
    let cues = gs.evaluate_round_over();
    assert!(gs.game_over);
    assert_eq!(cues, vec![Cue::RoundEnd]);
    // Evaluating again without a state change does nothing.
    let cues = gs.evaluate_round_over();
    assert!(gs.game_over);
    assert!(cues.is_empty());
}

#[test]
fn last_enemy_exits_then_round_ends() {
    let mut gs = GameState::default();
    gs.spawn_enemy(CarKind::Blue, 0);
    gs.cars_left = 0;
    // Not over yet: one enemy entity is still live.
    gs.evaluate_round_over();
    assert!(!gs.game_over);
    // The enemy exits the right-hand bound and is culled with its record.
    gs.advance_entities(8_000, 0);
    gs.cull_out_of_bounds();
    assert_eq!(gs.registry.cars.len(), 0);
    assert_eq!(gs.enemies_vector.len(), 0);
    let cues = gs.evaluate_round_over();
    assert!(gs.game_over);
    assert_eq!(cues, vec![Cue::RoundEnd]);
    assert!(gs.evaluate_round_over().is_empty());
}

#[test]
fn restart_resets_round_but_not_high_score() {
    let mut gs = GameState::default();
    gs.cars_left = 0;
    gs.score = 5;
    gs.high_score = 7;
    gs.power_spawned = true;
    gs.evaluate_round_over();
    assert!(gs.game_over);

    gs.handle_restart(true);
    assert!(!gs.game_over);
    assert_eq!(gs.score, 0);
    assert_eq!(gs.high_score, 7);
    assert_eq!(gs.cars_left, car_shoot::types::CARS_PER_ROUND);
    assert!(!gs.power_spawned);
    assert_eq!(gs.explosion_timer.elapsed_ms, 0);
    assert!(gs.explosion_timer.duration_ms >= car_shoot::types::POWER_DELAY_MIN_MS);
    assert!(gs.explosion_timer.duration_ms < car_shoot::types::POWER_DELAY_MAX_MS);
}

#[test]
fn restart_ignored_while_playing() {
    let mut gs = GameState::default();
    gs.score = 2;
    gs.high_score = 2;
    gs.handle_restart(true);
    assert!(!gs.game_over);
    assert_eq!(gs.score, 2);
    assert_eq!(gs.cars_left, 25);
}

#[test]
fn second_hit_on_dead_enemy_is_ignored() {
    let mut gs = GameState::default();
    gs.spawn_enemy(CarKind::Blue, 0);
    let events = vec![
        begin(EntityId::Marble(3), EntityId::Car(24)),
        begin(EntityId::Marble(2), EntityId::Car(24)),
    ];
    gs.resolve_collisions(&events);
    // The enemy died on the first event; the second matched no record and
    // scored nothing.
    assert_eq!(gs.score, 1);
    assert_eq!(gs.high_score, 1);
    assert_eq!(gs.enemies_vector.len(), 0);
}

#[test]
fn marble_returns_to_pool_only_once_per_drain() {
    let mut gs = GameState::default();
    gs.handle_fire(true);
    assert_eq!(gs.marble_labels, vec![1, 2]);
    let events = vec![
        begin(EntityId::Marble(3), EntityId::Player),
        begin(EntityId::Marble(3), EntityId::Player),
    ];
    gs.resolve_collisions(&events);
    // The label came back exactly once; the second event found it gone.
    assert_eq!(gs.marble_labels, vec![1, 2, 3]);
    assert_eq!(gs.registry.marbles.len(), 0);
}
