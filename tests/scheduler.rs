use thaumafunge::ai::{PlayerAI, RandomAI};
use thaumafunge::beings::new_zombie;
use thaumafunge::comp::Position;
use thaumafunge::entity::{Mana, TurnTaker, ACTION_COST};
use thaumafunge::rng::{Random, RANDOM_SEED};
use thaumafunge::scheduler::{
    update_player, update_random_ai, walk, walk_direction, Actor, DecisionKind, Intent, World,
};

fn walker(x: i32, y: i32, max_energy: i32, energy: i32) -> Actor {
    Actor {
        position: Position::new(x, y),
        turn_taker: TurnTaker { max_energy, energy },
        mind: DecisionKind::RandomWalker(RandomAI::default()),
    }
}

fn player(x: i32, y: i32, max_energy: i32, energy: i32) -> Actor {
    Actor {
        position: Position::new(x, y),
        turn_taker: TurnTaker { max_energy, energy },
        mind: DecisionKind::PlayerControlled(PlayerAI),
    }
}

fn intent(up: bool, down: bool, left: bool, right: bool) -> Intent {
    Intent { up, down, left, right }
}

fn energies(w: &World) -> Vec<i32> {
    w.actors.iter().map(|a| a.turn_taker.energy).collect()
}

#[test]
fn constructors_fill_the_budget() {
    let t = TurnTaker::new(60);
    assert_eq!((t.max_energy, t.energy), (60, 60));
    let m = Mana::new(100);
    assert_eq!((m.max, m.current), (100, 100));
    let z = new_zombie(Position::new(15, 15));
    assert_eq!(z.position, Position::new(15, 15));
    assert_eq!(z.turn_taker, TurnTaker::new(30));
    assert_eq!(z.ai.rand.seed(), RANDOM_SEED);
    let a = z.into_actor();
    assert!(matches!(a.mind, DecisionKind::RandomWalker(_)));
}

#[test]
fn scenario_lone_exhausted_actor_refills() {
    let mut w = World::new();
    w.spawn(player(1, 1, 60, 0));
    w.check_init_new_turn();
    assert_eq!(w.turn, 1);
    assert_eq!(energies(&w), vec![60]);
}

#[test]
fn refill_counts_once_and_resets_all() {
    let mut w = World::new();
    w.spawn(player(0, 0, 60, 0));
    w.spawn(walker(5, 5, 30, 0));
    w.turn = 7;
    w.check_init_new_turn();
    assert_eq!(w.turn, 8);
    assert_eq!(energies(&w), vec![60, 30]);
}

#[test]
fn no_refill_while_someone_has_energy() {
    let mut w = World::new();
    w.spawn(player(0, 0, 60, 0));
    w.spawn(walker(5, 5, 30, 10));
    w.check_init_new_turn();
    assert_eq!(w.turn, 0);
    assert_eq!(energies(&w), vec![0, 10]);
}

#[test]
fn scenario_two_walkers_exhaust_then_refill() {
    let mut w = World::new();
    w.spawn(walker(0, 0, 30, 30));
    w.spawn(walker(9, 9, 30, 30));
    w.advance_tick(Intent::none());
    assert_eq!(w.active, Some(0));
    assert_eq!(energies(&w), vec![0, 30]);
    w.advance_tick(Intent::none());
    assert_eq!(w.active, Some(1));
    assert_eq!(energies(&w), vec![0, 0]);
    assert_eq!(w.turn, 0);
    w.advance_tick(Intent::none());
    assert_eq!(w.turn, 1);
    assert_eq!(w.active, Some(0));
    assert_eq!(energies(&w), vec![0, 30]);
}

#[test]
fn scenario_idle_player_holds_the_turn() {
    let mut w = World::new();
    w.spawn(player(1, 1, 60, 60));
    w.spawn(walker(15, 15, 30, 30));
    for _ in 0..3 {
        w.advance_tick(Intent::none());
        assert_eq!(w.active, Some(0));
        assert_eq!(w.actors[0].turn_taker.energy, 60);
        assert_eq!(w.actors[0].position, Position::new(1, 1));
        assert_eq!(w.actors[1].turn_taker.energy, 30);
        assert_eq!(w.turn, 0);
    }
}

#[test]
fn scenario_reseeded_walk_repeats() {
    let run = || {
        let mut w = World::new();
        w.spawn(new_zombie(Position::new(0, 0)).into_actor());
        let mut path = Vec::new();
        for _ in 0..20 {
            w.advance_tick(Intent::none());
            path.push(w.actors[0].position);
        }
        path
    };
    let first = run();
    assert_eq!(first, run());
    let mut prev = Position::new(0, 0);
    for p in &first {
        assert_eq!((p.x - prev.x).abs() + (p.y - prev.y).abs(), 1);
        prev = *p;
    }
}

#[test]
fn player_moves_and_pays() {
    let mut a = player(3, 3, 60, 60);
    update_player(&mut a, intent(true, false, true, false));
    assert_eq!(a.position, Position::new(2, 4));
    assert_eq!(a.turn_taker.energy, 30);
    update_player(&mut a, intent(false, true, false, true));
    assert_eq!(a.position, Position::new(3, 3));
    assert_eq!(a.turn_taker.energy, 0);
}

#[test]
fn player_without_intent_keeps_everything() {
    let mut a = player(3, 3, 60, 45);
    update_player(&mut a, Intent::none());
    assert_eq!(a.position, Position::new(3, 3));
    assert_eq!(a.turn_taker.energy, 45);
}

#[test]
fn opposite_intents_cancel_but_still_cost() {
    let mut a = player(0, 0, 60, 60);
    update_player(&mut a, intent(true, true, true, true));
    assert_eq!(a.position, Position::new(0, 0));
    assert_eq!(a.turn_taker.energy, 30);
}

#[test]
fn spending_floors_at_zero() {
    let mut t = TurnTaker { max_energy: 50, energy: 20 };
    t.spend();
    assert_eq!(t.energy, 0);
    let mut t = TurnTaker { max_energy: 50, energy: 50 };
    t.spend();
    assert_eq!(t.energy, 50 - ACTION_COST);
    t.spend();
    assert_eq!(t.energy, 0);
}

#[test]
fn walker_always_pays() {
    let mut a = walker(0, 0, 50, 50);
    update_random_ai(&mut a);
    assert_eq!(a.turn_taker.energy, 20);
    update_random_ai(&mut a);
    assert_eq!(a.turn_taker.energy, 0);
    update_random_ai(&mut a);
    assert_eq!(a.turn_taker.energy, 0);
    assert!(a.position.x.abs() + a.position.y.abs() <= 3);
}

#[test]
fn walk_directions_by_draw() {
    assert_eq!(walk_direction(0), (0, 1));
    assert_eq!(walk_direction(1), (0, -1));
    assert_eq!(walk_direction(2), (1, 0));
    assert_eq!(walk_direction(3), (-1, 0));
    assert_eq!(walk_direction(255), (-1, 0));
    let mut a = walker(4, 4, 60, 60);
    walk(&mut a, 6);
    assert_eq!(a.position, Position::new(5, 4));
    assert_eq!(a.turn_taker.energy, 30);
}

#[test]
fn selection_takes_first_with_energy() {
    let mut w = World::new();
    w.spawn(walker(0, 0, 30, 0));
    w.spawn(player(1, 1, 60, 60));
    w.spawn(walker(2, 2, 30, 30));
    w.set_active_entity();
    assert_eq!(w.active, Some(1));
    w.set_active_entity();
    assert_eq!(w.active, Some(1));
    w.remove_active_entity();
    assert_eq!(w.active, None);
}

#[test]
fn selection_is_repeatable() {
    let build = || {
        let mut w = World::new();
        w.spawn(walker(0, 0, 30, 0));
        w.spawn(walker(1, 1, 30, 30));
        w.spawn(player(2, 2, 60, 60));
        w
    };
    let mut a = build();
    let mut b = build();
    a.set_active_entity();
    b.set_active_entity();
    assert_eq!(a.active, b.active);
    assert_eq!(a.active, Some(1));
}

#[test]
fn no_selection_when_all_empty() {
    let mut w = World::new();
    w.spawn(walker(0, 0, 0, 0));
    w.advance_tick(Intent::none());
    assert_eq!(w.turn, 1);
    assert_eq!(w.active, None);
    assert_eq!(energies(&w), vec![0]);
}

#[test]
fn energy_stays_in_budget_over_many_ticks() {
    let mut w = World::new();
    w.spawn(player(1, 1, 60, 60));
    w.spawn(new_zombie(Position::new(15, 15)).into_actor());
    w.spawn(walker(3, 3, 45, 45));
    for k in 0..50 {
        let i = if k % 2 == 0 { intent(false, false, false, true) } else { Intent::none() };
        w.advance_tick(i);
        for a in &w.actors {
            assert!(0 <= a.turn_taker.energy && a.turn_taker.energy <= a.turn_taker.max_energy);
        }
        let marked = (0..w.actors.len()).filter(|&j| w.active == Some(j)).count();
        assert!(marked <= 1);
    }
    assert!(w.turn > 0);
}

#[test]
fn can_advance_sees_the_limits() {
    let mut w = World::new();
    w.spawn(player(1, 1, 60, 60));
    assert!(w.can_advance(Intent::none()));
    let mut w = World::new();
    w.spawn(player(0, i32::MAX, 60, 60));
    assert!(w.can_advance(Intent::none()));
    assert!(w.can_advance(intent(false, true, false, false)));
    assert!(!w.can_advance(intent(true, false, false, false)));
    let mut w = World::new();
    w.spawn(walker(0, 0, 30, 0));
    w.spawn(walker(i32::MIN, 0, 30, 30));
    assert!(!w.can_advance(Intent::none()));
    w.actors[1].turn_taker.energy = 0;
    w.actors[0].position = Position::new(i32::MAX, 0);
    assert!(!w.can_advance(Intent::none()));
    w.actors[0].turn_taker.max_energy = 0;
    assert!(!w.can_advance(Intent::none()));
    w.actors[1].position = Position::new(0, 0);
    assert!(w.can_advance(Intent::none()));
    let mut w = World::new();
    w.turn = u64::MAX;
    assert!(!w.can_advance(Intent::none()));
}

#[test]
fn walker_steps_by_its_own_stream() {
    let mut stream = Random::default();
    let mut a = walker(0, 0, 90, 90);
    for _ in 0..3 {
        let before = a.position;
        let (dx, dy) = walk_direction(stream.gen());
        update_random_ai(&mut a);
        assert_eq!(a.position, Position::new(before.x + dx, before.y + dy));
    }
    assert_eq!(a.turn_taker.energy, 0);
}

#[test]
fn selection_clears_marker_when_none_ready() {
    let mut w = World::new();
    w.spawn(walker(0, 0, 30, 30));
    w.set_active_entity();
    assert_eq!(w.active, Some(0));
    w.actors[0].turn_taker.energy = 0;
    w.set_active_entity();
    assert_eq!(w.active, None);
}

#[test]
fn streams_depend_on_the_seed() {
    let mut a = Random::default();
    let mut b = Random::from_seed(RANDOM_SEED);
    let mut c = Random::from_seed(1);
    let xs: Vec<u8> = (0..32).map(|_| a.gen()).collect();
    let ys: Vec<u8> = (0..32).map(|_| b.gen()).collect();
    let zs: Vec<u8> = (0..32).map(|_| c.gen()).collect();
    assert_eq!(xs, ys);
    assert_ne!(xs, zs);
    assert!(xs.iter().any(|&x| x != xs[0]));
    assert_eq!(c.seed(), 1);
}

#[test]
fn full_counter_blocks_only_a_refill() {
    let mut w = World::new();
    w.spawn(player(1, 1, 60, 60));
    w.turn = u64::MAX;
    assert!(w.can_advance(Intent::none()));
    w.advance_tick(intent(false, false, false, true));
    assert_eq!(w.turn, u64::MAX);
    assert_eq!(w.actors[0].position, Position::new(2, 1));
    w.actors[0].turn_taker.energy = 0;
    assert!(!w.can_advance(Intent::none()));
}

#[test]
fn new_zombie_starts_a_fresh_stream() {
    let mut stream = Random::default();
    let (dx, dy) = walk_direction(stream.gen());
    let mut a = new_zombie(Position::new(7, 7)).into_actor();
    update_random_ai(&mut a);
    assert_eq!(a.position, Position::new(7 + dx, 7 + dy));
    assert_eq!(a.turn_taker.energy, 0);
}
