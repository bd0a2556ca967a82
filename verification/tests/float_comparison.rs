use bouncing_sprites::fixed::ONE;
use bouncing_sprites::game::SEED;
use bouncing_sprites::{init, update, Metrics};

fn display() -> Metrics {
    Metrics { item_width: 8, item_height: 8, window_width: 320, window_height: 240 }
}

#[derive(Clone, Copy)]
struct FloatEntity {
    x: f32,
    y: f32,
    vx: f32,
    vy: f32,
}

fn float_spawn(m: &Metrics, rng: &mut fastrand::Rng) -> FloatEntity {
    FloatEntity { x: m.window_width as f32 / 2.0, y: 0.0, vx: rng.f32() * 10.0 - 5.0, vy: 0.0 }
}

fn float_step(e: &mut FloatEntity, m: &Metrics, rng: &mut fastrand::Rng) {
    let left = e.x < 0.0 && e.vx < 0.0;
    let right = e.x + m.item_width as f32 > m.window_width as f32 && e.vx > 0.0;
    if left || right {
        e.vx = -e.vx;
    }
    if e.y + m.item_height as f32 > m.window_height as f32 {
        e.vy = -(rng.f32() * 5.0 + 5.0);
    }
    e.vy += 0.25;
    e.x += e.vx;
    e.y += e.vy;
}

fn as_float(raw: i64) -> f64 {
    raw as f64 / ONE as f64
}

#[test]
fn spawn_velocity_is_what_single_precision_gives_to_six_places() {
    let state = init(display(), 4);
    let mut rng = fastrand::Rng::with_seed(SEED);
    for i in 0..5 {
        let float = float_spawn(&display(), &mut rng);
        let e = state.entity(i).unwrap();
        assert!((as_float(e.vx.raw) - float.vx as f64).abs() < 2e-6);
        assert_eq!(as_float(e.x.raw), float.x as f64);
    }
    assert_eq!(state.seed(), rng.get_seed());
}

#[test]
fn free_fall_is_exactly_what_single_precision_gives() {
    let mut state = init(display(), 4);
    let mut rng = fastrand::Rng::with_seed(SEED);
    let mut floats: Vec<FloatEntity> = (0..5).map(|_| float_spawn(&display(), &mut rng)).collect();
    for _ in 0..20 {
        update(&mut state, 0);
        for e in floats.iter_mut() {
            float_step(e, &display(), &mut rng);
        }
        for (i, float) in floats.iter().enumerate() {
            let e = state.entity(i).unwrap();
            assert_eq!(as_float(e.y.raw), float.y as f64);
            assert_eq!(as_float(e.vy.raw), float.vy as f64);
        }
    }
}

#[test]
fn a_long_run_stays_close_to_single_precision() {
    let mut state = init(display(), 4);
    let mut rng = fastrand::Rng::with_seed(SEED);
    let mut floats: Vec<FloatEntity> = (0..5).map(|_| float_spawn(&display(), &mut rng)).collect();
    for tick in 0..1000 {
        let button = if tick == 300 { 1 } else { 0 };
        update(&mut state, button);
        if button != 0 {
            for _ in 0..5 {
                floats.push(float_spawn(&display(), &mut rng));
            }
        }
        for e in floats.iter_mut() {
            float_step(e, &display(), &mut rng);
        }
        assert_eq!(state.seed(), rng.get_seed(), "tick {}", tick);
        for (i, float) in floats.iter().enumerate() {
            let e = state.entity(i).unwrap();
            assert!((as_float(e.x.raw) - float.x as f64).abs() < 0.01, "tick {} x", tick);
            assert!((as_float(e.y.raw) - float.y as f64).abs() < 0.01, "tick {} y", tick);
            assert!((as_float(e.vx.raw) - float.vx as f64).abs() < 1e-4, "tick {} vx", tick);
            assert!((as_float(e.vy.raw) - float.vy as f64).abs() < 1e-4, "tick {} vy", tick);
        }
    }
    assert_eq!(state.entity_count(), 10);
}
