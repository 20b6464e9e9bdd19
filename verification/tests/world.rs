use rand::rngs::StdRng;
use rand::SeedableRng;
use webtau::state::StateContainer;
use webtau::world::{
    get_world_view, init, tick_world, GameWorld, TickResult, WorldView, MAX_DELTA, MIN_DELTA,
};

#[test]
fn new_world_starts_at_zero() {
    let world = GameWorld::new(42);
    assert_eq!(world.view(), WorldView { score: 0, tick_count: 0 });
    assert!(world.can_tick());
}

#[test]
fn delta_bounds() {
    assert_eq!(MIN_DELTA, -1);
    assert_eq!(MAX_DELTA, 3);
}

#[test]
fn tick_moves_the_score_by_what_it_reports() {
    let mut world = GameWorld::new(7);
    let mut score = 0;
    for n in 1..=200u32 {
        assert!(world.can_tick());
        let TickResult { score_delta } = world.tick();
        assert!((-1..=3).contains(&score_delta));
        score += score_delta;
        assert_eq!(world.view(), WorldView { score, tick_count: n });
    }
}

#[test]
fn ticks_do_not_repeat_one_value() {
    let mut world = GameWorld::new(42);
    let first = world.tick().score_delta;
    let mut differs = false;
    for _ in 0..200 {
        if world.tick().score_delta != first {
            differs = true;
        }
    }
    assert!(differs);
}

#[test]
fn commands_act_on_the_world() {
    let mut world = GameWorld::new(1);
    assert_eq!(get_world_view(&world), WorldView { score: 0, tick_count: 0 });
    let r = tick_world(&mut world);
    assert_eq!(get_world_view(&world), WorldView { score: r.score_delta, tick_count: 1 });
}

#[test]
fn init_fills_the_container() {
    let mut container: StateContainer<GameWorld> = StateContainer::new();
    assert!(container.try_with_state(get_world_view).is_err());
    init(&mut container, 5);
    assert!(container.is_initialized());
    assert_eq!(container.with_state(get_world_view), WorldView { score: 0, tick_count: 0 });
    let r = container.with_state_mut(tick_world);
    assert_eq!(
        container.with_state(|w| w.view()),
        WorldView { score: r.score_delta, tick_count: 1 }
    );
}

fn deltas(mut world: GameWorld, n: usize) -> Vec<i32> {
    let mut out = Vec::new();
    for _ in 0..n {
        out.push(world.tick().score_delta);
    }
    out
}

#[test]
fn world_from_a_source_starts_at_zero() {
    let world = GameWorld::from_source(StdRng::seed_from_u64(9));
    assert_eq!(world.view(), WorldView { score: 0, tick_count: 0 });
}

#[test]
fn new_draws_from_the_generator_of_its_seed() {
    for seed in [0u64, 1, 42, u64::MAX] {
        assert_eq!(
            deltas(GameWorld::new(seed), 100),
            deltas(GameWorld::from_source(StdRng::seed_from_u64(seed)), 100)
        );
    }
}

#[test]
fn same_seed_gives_the_same_ticks() {
    assert_eq!(deltas(GameWorld::new(42), 100), deltas(GameWorld::new(42), 100));
}

#[test]
fn different_seeds_give_different_ticks() {
    assert_ne!(deltas(GameWorld::new(1), 100), deltas(GameWorld::new(2), 100));
    assert_ne!(deltas(GameWorld::new(0), 100), deltas(GameWorld::new(42), 100));
}

#[test]
fn apply_delta_moves_the_score_by_the_change_given() {
    let mut world = GameWorld::new(3);
    assert_eq!(world.apply_delta(3), TickResult { score_delta: 3 });
    assert_eq!(world.view(), WorldView { score: 3, tick_count: 1 });
    assert_eq!(world.apply_delta(-1), TickResult { score_delta: -1 });
    assert_eq!(world.view(), WorldView { score: 2, tick_count: 2 });
    assert_eq!(world.apply_delta(0), TickResult { score_delta: 0 });
    assert_eq!(world.view(), WorldView { score: 2, tick_count: 3 });
}

#[test]
fn apply_delta_leaves_the_source_of_chance_alone() {
    let mut world = GameWorld::new(42);
    world.apply_delta(2);
    let mut fresh = GameWorld::new(42);
    for _ in 0..50 {
        assert_eq!(world.tick().score_delta, fresh.tick().score_delta);
    }
}
