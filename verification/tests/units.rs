use car_shoot::state::GameState;
use car_shoot::tick::{game_logic, TickInput};
use car_shoot::types::{make_enemy, Behavior, CarKind, Cue, CARS_PER_ROUND, LAUNCH_Y, SPAWN_X};

#[test]
fn default_state_is_a_fresh_round() {
    let gs = GameState::default();
    assert_eq!(gs.marble_labels, vec![1, 2, 3]);
    assert_eq!(gs.cars_left, CARS_PER_ROUND);
    assert_eq!(gs.score, 0);
    assert_eq!(gs.high_score, 0);
    assert!(!gs.game_over);
    assert!(!gs.power_spawned);
    assert!(gs.enemies_vector.is_empty());
    assert!(gs.registry.marbles.is_empty());
    assert!(gs.registry.cars.is_empty());
    assert!(gs.registry.power.is_none());
    assert_eq!(gs.spawn_timer.duration_ms, 0);
    assert!(gs.explosion_timer.duration_ms >= 5_000);
    assert!(gs.explosion_timer.duration_ms < 7_000);
}

#[test]
fn archetype_table_matches_the_rules() {
    let green = make_enemy(CarKind::Green, 9);
    assert_eq!(green.health, 2);
    assert_eq!(green.speed, 250);
    assert_eq!(green.behavior, Behavior::Linear);
    assert_eq!(green.label, 9);
    let black = make_enemy(CarKind::Black, 8);
    assert_eq!(black.health, 1);
    assert_eq!(black.speed, 150);
    assert_eq!(black.behavior, Behavior::Sinusoidal);
    assert_eq!(make_enemy(CarKind::Red, 0).speed, 350);
    assert_eq!(make_enemy(CarKind::Blue, 0).speed, 200);
    assert_eq!(make_enemy(CarKind::Yellow, 0).speed, 300);
}

#[test]
fn projectiles_rise_at_their_fixed_speed() {
    let mut gs = GameState::default();
    gs.update_player(Some(0));
    gs.handle_fire(true);
    gs.advance_entities(1_000, 0);
    // 600 px/s for one second, in millipixels, from the launch height.
    assert_eq!(gs.registry.marbles[0].y, LAUNCH_Y + 600_000);
    assert_eq!(gs.registry.marbles[0].x, 0);
}

#[test]
fn enemies_advance_at_their_record_speed() {
    let mut gs = GameState::default();
    gs.spawn_enemy(CarKind::Blue, 4_000);
    gs.advance_entities(1_000, 77);
    let car = &gs.registry.cars[0];
    assert_eq!(car.x, SPAWN_X + 200_000);
    // A linear mover ignores the wave offset.
    assert_eq!(car.y, 4_000);
}

#[test]
fn weaving_enemy_follows_the_wave_offset() {
    let mut gs = GameState::default();
    gs.spawn_enemy(CarKind::Black, 0);
    gs.advance_entities(1_000, -5_000);
    let car = &gs.registry.cars[0];
    assert_eq!(car.x, SPAWN_X + 150_000);
    assert_eq!(car.y, -5_000);
}

#[test]
fn powerup_advances_at_its_fixed_speed() {
    let mut gs = GameState::default();
    gs.run_powerup(10_000);
    let before = gs.registry.power.unwrap();
    gs.advance_entities(1_000, 0);
    let after = gs.registry.power.unwrap();
    assert_eq!(after.x, before.x + 300_000);
    assert_eq!(after.y, before.y);
}

#[test]
fn culled_projectile_label_returns_to_pool() {
    let mut gs = GameState::default();
    gs.update_player(Some(0));
    gs.handle_fire(true);
    assert_eq!(gs.marble_labels, vec![1, 2]);
    // Two seconds of flight puts the projectile past the upper bound.
    gs.advance_entities(2_000, 0);
    gs.cull_out_of_bounds();
    assert!(gs.registry.marbles.is_empty());
    assert_eq!(gs.marble_labels, vec![1, 2, 3]);
}

#[test]
fn culled_enemy_record_leaves_the_directory() {
    let mut gs = GameState::default();
    gs.spawn_enemy(CarKind::Red, 0);
    gs.spawn_enemy(CarKind::Blue, 1_000);
    // Five seconds at 350 px/s carries the red car past the right bound;
    // the blue car (200 px/s) stays in.
    gs.advance_entities(5_000, 0);
    gs.cull_out_of_bounds();
    assert_eq!(gs.registry.cars.len(), 1);
    assert_eq!(gs.enemies_vector.len(), 1);
    assert_eq!(gs.enemies_vector[0].label, 23);
    assert_eq!(gs.registry.cars[0].num, 23);
}

#[test]
fn spawn_controller_fires_and_redraws_its_delay() {
    let mut gs = GameState::default();
    // The first countdown is zero, so the controller fires at once.
    gs.run_spawn(1);
    assert_eq!(gs.cars_left, 24);
    assert_eq!(gs.enemies_vector.len(), 1);
    assert_eq!(gs.enemies_vector[0].label, 24);
    let car = &gs.registry.cars[0];
    assert_eq!(car.num, 24);
    assert_eq!(car.x, SPAWN_X);
    assert!(car.y >= -100_000 && car.y < 325_000);
    assert!(gs.enemies_vector[0].health >= 1 && gs.enemies_vector[0].health <= 2);
    assert!(gs.enemies_vector[0].speed >= 150 && gs.enemies_vector[0].speed <= 350);
    assert_eq!(gs.spawn_timer.elapsed_ms, 0);
    assert!(gs.spawn_timer.duration_ms >= 100);
    assert!(gs.spawn_timer.duration_ms < 1_250);
    // Short of the fresh delay, nothing more spawns.
    gs.run_spawn(50);
    assert_eq!(gs.cars_left, 24);
    assert_eq!(gs.spawn_timer.elapsed_ms, 50);
}

#[test]
fn spawn_controller_stops_at_zero() {
    let mut gs = GameState::default();
    gs.cars_left = 0;
    gs.run_spawn(5_000);
    assert_eq!(gs.cars_left, 0);
    assert!(gs.enemies_vector.is_empty());
}

#[test]
fn spawned_labels_are_unique() {
    let mut gs = GameState::default();
    for _ in 0..25 {
        gs.run_spawn(5_000);
    }
    assert_eq!(gs.cars_left, 0);
    assert_eq!(gs.enemies_vector.len(), 25);
    let mut labels: Vec<u32> = gs.enemies_vector.iter().map(|e| e.label).collect();
    labels.sort();
    labels.dedup();
    assert_eq!(labels.len(), 25);
}

#[test]
fn powerup_spawns_once_per_round() {
    let mut gs = GameState::default();
    let period = gs.explosion_timer.duration_ms;
    gs.run_powerup(10_000);
    // The retriggering countdown wrapped around its period.
    assert_eq!(gs.explosion_timer.duration_ms, period);
    assert_eq!(gs.explosion_timer.elapsed_ms, 10_000 % period);
    assert!(gs.power_spawned);
    let first = gs.registry.power.unwrap();
    assert_eq!(first.x, SPAWN_X);
    assert!(first.y >= -100_000 && first.y < 325_000);
    // The countdown retriggers but the round's one power-up is spent.
    gs.registry.power = None;
    gs.run_powerup(10_000);
    assert!(gs.registry.power.is_none());
}

#[test]
fn score_increment_drags_high_score_up() {
    let mut gs = GameState::default();
    gs.score = 3;
    gs.high_score = 3;
    gs.increment_score();
    assert_eq!(gs.score, 4);
    assert_eq!(gs.high_score, 4);
    gs.score = 1;
    gs.increment_score();
    assert_eq!(gs.score, 2);
    assert_eq!(gs.high_score, 4);
}

#[test]
fn directory_lookup_finds_the_record() {
    let mut gs = GameState::default();
    gs.spawn_enemy(CarKind::Red, 0);
    gs.spawn_enemy(CarKind::Green, 0);
    assert_eq!(gs.get_enemy_index(23), 1);
    let e = gs.get_enemy(23);
    assert_eq!(e.label, 23);
    assert_eq!(e.health, 2);
}

#[test]
fn one_tick_runs_the_whole_pipeline() {
    let mut gs = GameState::default();
    let input = TickInput {
        dt_ms: 16,
        mouse_x: Some(25_000),
        fire_pressed: true,
        restart_pressed: false,
        wave_mpx: 0,
        collisions: Vec::new(),
    };
    let cues = game_logic(&mut gs, &input);
    // The fire edge launched a projectile and the zero-delay spawn
    // controller brought the first enemy in.
    assert_eq!(gs.registry.player_x, 25_000);
    assert_eq!(gs.registry.marbles.len(), 1);
    assert_eq!(gs.cars_left, 24);
    assert_eq!(gs.enemies_vector.len(), 1);
    assert!(cues.contains(&Cue::Launch));
    assert_eq!(gs.score, 0);
}

#[test]
fn tick_restart_path_keeps_high_score() {
    let mut gs = GameState::default();
    gs.cars_left = 0;
    gs.high_score = 9;
    gs.evaluate_round_over();
    assert!(gs.game_over);
    let input = TickInput {
        dt_ms: 16,
        mouse_x: None,
        fire_pressed: false,
        restart_pressed: true,
        wave_mpx: 0,
        collisions: Vec::new(),
    };
    game_logic(&mut gs, &input);
    assert!(!gs.game_over);
    assert_eq!(gs.score, 0);
    assert_eq!(gs.high_score, 9);
    assert_eq!(gs.cars_left, CARS_PER_ROUND);
}
