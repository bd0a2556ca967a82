use bouncing_sprites::entity::GRAVITY;
use bouncing_sprites::fixed::ONE;
use bouncing_sprites::game::SEED;
use bouncing_sprites::{init, update, Entity, Metrics};

fn display() -> Metrics {
    Metrics { item_width: 8, item_height: 8, window_width: 320, window_height: 240 }
}

fn sunken() -> Metrics {
    Metrics { item_width: 8, item_height: 8, window_width: 320, window_height: 4 }
}

#[test]
fn spawning_draws_once_for_each_entity() {
    let state = init(display(), 4);
    let mut rng = fastrand::Rng::with_seed(SEED);
    for i in 0..5 {
        let word = rng.u64(..);
        let e = state.entity(i).unwrap();
        assert_eq!(e, Entity::spawn(320, (i % 4) as i32, word));
        assert_eq!(e.vx.raw, 10 * (word >> 40) as i64 - 5 * ONE);
    }
    assert_eq!(state.seed(), rng.get_seed());
    assert_ne!(state.seed(), SEED);
}

#[test]
fn spawned_velocities_follow_the_generator_and_differ() {
    let state = init(display(), 4);
    let first = state.entity(0).unwrap().vx.raw;
    assert!((1..5).any(|i| state.entity(i).unwrap().vx.raw != first));
}

#[test]
fn a_tick_above_the_floor_draws_nothing() {
    let mut state = init(display(), 4);
    let seed = state.seed();
    update(&mut state, 0);
    update(&mut state, 0);
    assert_eq!(state.seed(), seed);
}

#[test]
fn a_held_button_draws_once_for_each_new_entity() {
    let mut state = init(display(), 4);
    update(&mut state, 1);
    let mut rng = fastrand::Rng::with_seed(SEED);
    for _ in 0..10 {
        rng.u64(..);
    }
    assert_eq!(state.seed(), rng.get_seed());
}

#[test]
fn a_kick_draws_once_for_each_entity_past_the_floor() {
    let mut state = init(sunken(), 4);
    let mut rng = fastrand::Rng::with_seed(SEED);
    for _ in 0..5 {
        rng.u64(..);
    }
    assert_eq!(state.seed(), rng.get_seed());
    update(&mut state, 0);
    for i in 0..5 {
        let word = rng.u64(..);
        let e = state.entity(i).unwrap();
        let kick = -(5 * (word >> 40) as i64 + 5 * ONE);
        assert!(-10 * ONE < kick && kick <= -5 * ONE);
        assert_eq!(e.vy.raw, kick + GRAVITY);
        assert_eq!(e.y.raw, kick + GRAVITY);
    }
    assert_eq!(state.seed(), rng.get_seed());
}

#[test]
fn only_entities_past_the_floor_draw() {
    let mut state = init(display(), 4);
    let mut rng = fastrand::Rng::with_seed(SEED);
    for _ in 0..5 {
        rng.u64(..);
    }
    for _ in 0..300 {
        let kicked: Vec<bool> =
            (0..5).map(|i| state.entity(i).unwrap().is_past_floor(&display())).collect();
        update(&mut state, 0);
        for (i, was_kicked) in kicked.iter().enumerate() {
            if *was_kicked {
                let word = rng.u64(..);
                let e = state.entity(i).unwrap();
                assert_eq!(e.vy.raw, -(5 * (word >> 40) as i64 + 5 * ONE) + GRAVITY);
            }
        }
        assert_eq!(state.seed(), rng.get_seed());
    }
    assert_ne!(rng.get_seed(), {
        let mut fresh = fastrand::Rng::with_seed(SEED);
        for _ in 0..5 {
            fresh.u64(..);
        }
        fresh.get_seed()
    });
}
