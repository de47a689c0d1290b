use std::time::Duration;

use bevy::asset::HandleUntyped;
use bevy::ecs::entity::Entity;
use bevy::reflect::TypeUuid;
use bevy::scene::Scene;
use tower_defense::assets::GameAssets;
use tower_defense::bullet::Bullet;
use tower_defense::commands::{Command, Commands};
use tower_defense::math::{Point, Vector};
use tower_defense::shooter::TowerShooter;
use tower_defense::tower::{tower_shooting, TowerEntry};
use tower_defense::tower_type::TowerType;

const SECOND: u64 = 1_000_000_000;
const MILLI: u64 = 1_000_000;

fn scene(id: u64) -> HandleUntyped {
    HandleUntyped::weak_from_u64(Scene::TYPE_UUID, id)
}

fn assets() -> GameAssets {
    GameAssets {
        bullet_scene: scene(1),
        tower_base_scene: scene(2),
        tomato_tower_scene: scene(3),
        tomato_scene: scene(4),
        potato_tower_scene: scene(5),
        potato_scene: scene(6),
        cabbage_tower_scene: scene(7),
        cabbage_scene: scene(8),
        target_scene: scene(9),
    }
}

fn point(x: i32, y: i32, z: i32) -> Point {
    Point { x, y, z }
}

fn entry(id: u32, kind: TowerType, at: Point, assets: &GameAssets) -> TowerEntry {
    let (_, tower) = kind.get_tower(assets);
    TowerEntry { entity: Entity::from_raw(id), tower, tower_type: kind, transform: at }
}

fn bullets(commands: &Commands) -> Vec<(Entity, Bullet)> {
    let mut found = Vec::new();
    for command in &commands.queue {
        match command {
            Command::SpawnBullet { parent, bullet, .. } => found.push((*parent, *bullet)),
            _ => panic!("a tower asked for something that is no bullet"),
        }
    }
    found
}

fn shots_per_tick(kind: TowerType, delta: u64, ticks: usize) -> Vec<usize> {
    let assets = assets();
    let mut towers = vec![entry(1, kind, point(0, 0, 0), &assets)];
    let targets = vec![point(1000, 0, 0)];
    let mut shots = Vec::new();
    for _ in 0..ticks {
        let mut commands = Commands::new();
        tower_shooting(&mut commands, &mut towers, &targets, &assets, delta);
        shots.push(commands.queue.len());
    }
    shots
}

#[test]
fn the_square_of_a_distance_is_the_sum_of_the_squares() {
    let from = Vector { x: 0, y: 600, z: 0 };
    assert_eq!(from.distance_squared_to(&point(2000, 0, 0)), 4_360_000);
    assert_eq!(from.distance_squared_to(&point(5000, 0, 0)), 25_360_000);
    assert_eq!(from.distance_squared_to(&point(0, 600, 0)), 0);
    let other = Vector { x: 1, y: -2, z: 3 };
    assert_eq!(other.distance_squared_to(&point(4, 2, -9)), 9 + 16 + 144);
}

#[test]
fn distances_at_the_ends_of_the_world_do_not_overflow() {
    let low = point(i32::MIN, i32::MIN, i32::MIN);
    let high = point(i32::MAX, i32::MAX, i32::MAX);
    let from = low.offset_by(&low);
    assert_eq!(from, Vector { x: -4_294_967_296, y: -4_294_967_296, z: -4_294_967_296 });
    let side: u128 = 4_294_967_296 + 2_147_483_647;
    assert_eq!(from.distance_squared_to(&high), 3 * side * side);
    let aim = from.direction_to(&high);
    assert_eq!(aim, Vector { x: 6_442_450_943, y: 6_442_450_943, z: 6_442_450_943 });
}

#[test]
fn the_firing_point_is_the_tower_place_plus_the_offset() {
    let place = point(1500, -200, 30);
    assert_eq!(place.offset_by(&point(0, 600, 0)), Vector { x: 1500, y: 400, z: 30 });
}

#[test]
fn the_heading_is_the_target_minus_the_firing_point() {
    let from = Vector { x: 1500, y: 400, z: 30 };
    assert_eq!(from.direction_to(&point(500, 400, 130)), Vector { x: -1000, y: 0, z: 100 });
}

#[test]
fn a_tower_aims_at_the_nearest_target() {
    let assets = assets();
    let kind = TowerType::Tomato;
    let place = point(0, 0, 0);
    let shooter = TowerShooter::new(Entity::from_raw(1), &kind, &place);
    let (_, tower) = kind.get_tower(&assets);
    let targets = vec![
        point(-9000, 400, 2500),
        point(3000, 400, 2500),
        point(-1000, 400, 2500),
        point(7000, 400, 2500),
    ];
    let direction = shooter.get_direction(&tower, &targets);
    assert_eq!(direction, Some(Vector { x: -1000, y: -200, z: 2500 }));
    let from = place.offset_by(&tower.bullet_offset);
    let chosen = from.distance_squared_to(&targets[2]);
    for target in &targets {
        assert!(chosen <= from.distance_squared_to(target));
    }
}

#[test]
fn of_equally_near_targets_the_first_is_aimed_at() {
    let assets = assets();
    let kind = TowerType::Potato;
    let place = point(0, -600, 0);
    let shooter = TowerShooter::new(Entity::from_raw(1), &kind, &place);
    let (_, tower) = kind.get_tower(&assets);
    let targets = vec![point(0, 0, 5000), point(3000, 0, 0), point(-3000, 0, 0), point(0, 3000, 0)];
    assert_eq!(shooter.get_direction(&tower, &targets), Some(Vector { x: 3000, y: 0, z: 0 }));
}

#[test]
fn without_targets_there_is_no_heading() {
    let assets = assets();
    let kind = TowerType::Cabbage;
    let place = point(10, 20, 30);
    let shooter = TowerShooter::new(Entity::from_raw(1), &kind, &place);
    let (_, tower) = kind.get_tower(&assets);
    assert_eq!(shooter.get_direction(&tower, &Vec::new()), None);
}

#[test]
fn a_single_target_is_the_nearest() {
    let assets = assets();
    let kind = TowerType::Cabbage;
    let place = point(0, 0, 0);
    let shooter = TowerShooter::new(Entity::from_raw(1), &kind, &place);
    let (_, tower) = kind.get_tower(&assets);
    let targets = vec![point(i32::MAX, i32::MIN, 0)];
    assert_eq!(
        shooter.get_direction(&tower, &targets),
        Some(Vector { x: 2_147_483_647, y: -2_147_483_648 - 600, z: 0 })
    );
}

#[test]
fn shoot_from_queues_one_bullet_under_the_tower() {
    let assets = assets();
    let kind = TowerType::Potato;
    let place = point(4000, 800, 0);
    let entity = Entity::from_raw(42);
    let shooter = TowerShooter::new(entity, &kind, &place);
    let (_, tower) = kind.get_tower(&assets);
    let targets = vec![point(-4000, 400, 2500), point(-8000, 400, 2500)];
    let mut commands = Commands::new();
    shooter.shoot_from(&mut commands, &tower, &targets, &assets);
    assert_eq!(commands.queue.len(), 1);
    match &commands.queue[0] {
        Command::SpawnBullet { parent, model, lifetime, bullet } => {
            assert_eq!(*parent, entity);
            assert_eq!(*model.scene, scene(6));
            assert_eq!(model.transform, point(0, 600, 0));
            assert_eq!(lifetime.timer.duration(), Duration::from_secs(10));
            assert_eq!(lifetime.timer.elapsed(), Duration::ZERO);
            assert!(!lifetime.timer.repeating());
            assert!(!lifetime.timer.paused());
            assert_eq!(
                *bullet,
                Bullet { direction: Vector { x: -8000, y: -1000, z: 2500 }, speed: 6500 }
            );
        }
        _ => panic!("the request does not spawn a bullet"),
    }
}

#[test]
fn shoot_from_without_targets_queues_nothing() {
    let assets = assets();
    let kind = TowerType::Tomato;
    let place = point(0, 0, 0);
    let shooter = TowerShooter::new(Entity::from_raw(1), &kind, &place);
    let (_, tower) = kind.get_tower(&assets);
    let mut commands = Commands::new();
    commands.add(Command::DespawnRecursive { entity: Entity::from_raw(5) });
    shooter.shoot_from(&mut commands, &tower, &Vec::new(), &assets);
    assert_eq!(commands.queue.len(), 1);
    assert!(matches!(commands.queue[0], Command::DespawnRecursive { .. }));
}

#[test]
fn tower_at_origin_hits_the_nearer_of_two_targets_after_one_second() {
    let assets = assets();
    let mut towers = vec![entry(1, TowerType::Tomato, point(0, 0, 0), &assets)];
    let targets = vec![point(5000, 0, 0), point(2000, 0, 0)];
    let mut commands = Commands::new();
    tower_shooting(&mut commands, &mut towers, &targets, &assets, SECOND);
    assert_eq!(
        bullets(&commands),
        vec![(
            Entity::from_raw(1),
            Bullet { direction: Vector { x: 2000, y: -600, z: 0 }, speed: 3500 }
        )]
    );
}

#[test]
fn each_kind_fires_at_its_own_speed_after_its_own_cooldown() {
    let assets = assets();
    let kinds = [TowerType::Tomato, TowerType::Potato, TowerType::Cabbage];
    let speeds = [3500, 6500, 2500];
    for i in 0..3 {
        let mut towers = vec![entry(1, kinds[i], point(0, 0, 0), &assets)];
        let targets = vec![point(5000, 0, 0), point(2000, 0, 0)];
        let mut commands = Commands::new();
        tower_shooting(&mut commands, &mut towers, &targets, &assets, (i as u64 + 1) * SECOND);
        assert_eq!(
            bullets(&commands),
            vec![(
                Entity::from_raw(1),
                Bullet { direction: Vector { x: 2000, y: -600, z: 0 }, speed: speeds[i] }
            )]
        );
    }
}

#[test]
fn a_tower_fires_once_a_period_whatever_the_tick() {
    assert_eq!(shots_per_tick(TowerType::Tomato, SECOND, 4), vec![1, 1, 1, 1]);
    assert_eq!(shots_per_tick(TowerType::Tomato, 500 * MILLI, 6), vec![0, 1, 0, 1, 0, 1]);
    assert_eq!(
        shots_per_tick(TowerType::Tomato, 250 * MILLI, 12),
        vec![0, 0, 0, 1, 0, 0, 0, 1, 0, 0, 0, 1]
    );
    assert_eq!(shots_per_tick(TowerType::Potato, SECOND, 6), vec![0, 1, 0, 1, 0, 1]);
    assert_eq!(shots_per_tick(TowerType::Cabbage, SECOND, 7), vec![0, 0, 1, 0, 0, 1, 0]);
}

#[test]
fn the_same_time_in_finer_ticks_brings_the_same_number_of_shots() {
    for (delta, ticks) in [(SECOND, 6), (500 * MILLI, 12), (100 * MILLI, 60), (MILLI, 6000)] {
        let shots: usize = shots_per_tick(TowerType::Potato, delta, ticks).iter().sum();
        assert_eq!(shots, 3);
    }
}

#[test]
fn ticks_that_do_not_divide_the_period_keep_the_pace() {
    assert_eq!(
        shots_per_tick(TowerType::Tomato, 300 * MILLI, 10),
        vec![0, 0, 0, 1, 0, 0, 1, 0, 0, 1]
    );
    assert_eq!(shots_per_tick(TowerType::Potato, 1500 * MILLI, 4), vec![0, 1, 1, 1]);
}

#[test]
fn a_tower_does_not_fire_again_while_it_waits() {
    let shots = shots_per_tick(TowerType::Tomato, 100 * MILLI, 25);
    for (tick, count) in shots.iter().enumerate() {
        let expected = if (tick + 1) % 10 == 0 { 1 } else { 0 };
        assert_eq!(*count, expected);
    }
}

#[test]
fn a_tick_without_time_changes_nothing() {
    let assets = assets();
    let mut towers = vec![entry(1, TowerType::Tomato, point(0, 0, 0), &assets)];
    let targets = vec![point(1000, 0, 0)];
    let mut commands = Commands::new();
    tower_shooting(&mut commands, &mut towers, &targets, &assets, 0);
    assert!(commands.queue.is_empty());
    assert_eq!(towers[0].tower.shooting_timer.elapsed(), Duration::ZERO);
    assert!(!towers[0].tower.shooting_timer.just_finished());
}

#[test]
fn the_countdown_keeps_what_a_tick_leaves_over() {
    let assets = assets();
    let mut towers = vec![entry(1, TowerType::Tomato, point(0, 0, 0), &assets)];
    let targets = vec![point(1000, 0, 0)];
    let mut commands = Commands::new();
    tower_shooting(&mut commands, &mut towers, &targets, &assets, 700 * MILLI);
    assert_eq!(commands.queue.len(), 0);
    assert_eq!(towers[0].tower.shooting_timer.elapsed(), Duration::from_millis(700));
    tower_shooting(&mut commands, &mut towers, &targets, &assets, 700 * MILLI);
    assert_eq!(commands.queue.len(), 1);
    assert_eq!(towers[0].tower.shooting_timer.elapsed(), Duration::from_millis(400));
    assert!(towers[0].tower.shooting_timer.just_finished());
    tower_shooting(&mut commands, &mut towers, &targets, &assets, 500 * MILLI);
    assert_eq!(commands.queue.len(), 1);
    assert_eq!(towers[0].tower.shooting_timer.elapsed(), Duration::from_millis(900));
    assert!(!towers[0].tower.shooting_timer.just_finished());
}

#[test]
fn a_tick_of_several_periods_brings_one_shot() {
    let assets = assets();
    let mut towers = vec![entry(1, TowerType::Tomato, point(0, 0, 0), &assets)];
    let targets = vec![point(1000, 0, 0)];
    let mut commands = Commands::new();
    tower_shooting(&mut commands, &mut towers, &targets, &assets, 3 * SECOND + 250 * MILLI);
    assert_eq!(commands.queue.len(), 1);
    assert_eq!(towers[0].tower.shooting_timer.elapsed(), Duration::from_millis(250));
    assert_eq!(towers[0].tower.shooting_timer.duration(), Duration::from_secs(1));
}

#[test]
fn a_dry_fire_queues_nothing_and_starts_the_countdown_over() {
    let assets = assets();
    let mut towers = vec![entry(1, TowerType::Tomato, point(0, 0, 0), &assets)];
    let mut commands = Commands::new();
    tower_shooting(&mut commands, &mut towers, &Vec::new(), &assets, SECOND);
    assert!(commands.queue.is_empty());
    assert!(towers[0].tower.shooting_timer.just_finished());
    assert_eq!(towers[0].tower.shooting_timer.elapsed(), Duration::ZERO);
    assert_eq!(towers[0].tower.shooting_timer.duration(), Duration::from_secs(1));
    let targets = vec![point(1000, 0, 0)];
    tower_shooting(&mut commands, &mut towers, &targets, &assets, 999 * MILLI);
    assert!(commands.queue.is_empty());
    tower_shooting(&mut commands, &mut towers, &targets, &assets, MILLI);
    assert_eq!(commands.queue.len(), 1);
}

#[test]
fn towers_fire_in_their_order_and_each_on_its_own_countdown() {
    let assets = assets();
    let mut towers = vec![
        entry(1, TowerType::Cabbage, point(0, 0, 0), &assets),
        entry(2, TowerType::Tomato, point(10_000, 0, 0), &assets),
        entry(3, TowerType::Potato, point(0, 0, 10_000), &assets),
    ];
    let targets = vec![point(0, 600, 1000), point(9000, 600, 0)];
    let mut commands = Commands::new();
    tower_shooting(&mut commands, &mut towers, &targets, &assets, SECOND);
    assert_eq!(
        bullets(&commands),
        vec![(
            Entity::from_raw(2),
            Bullet { direction: Vector { x: -1000, y: 0, z: 0 }, speed: 3500 }
        )]
    );
    let mut commands = Commands::new();
    tower_shooting(&mut commands, &mut towers, &targets, &assets, SECOND);
    assert_eq!(
        bullets(&commands),
        vec![
            (Entity::from_raw(2), Bullet { direction: Vector { x: -1000, y: 0, z: 0 }, speed: 3500 }),
            (Entity::from_raw(3), Bullet { direction: Vector { x: 0, y: 0, z: -9000 }, speed: 6500 }),
        ]
    );
    let mut commands = Commands::new();
    tower_shooting(&mut commands, &mut towers, &targets, &assets, SECOND);
    assert_eq!(
        bullets(&commands),
        vec![
            (Entity::from_raw(1), Bullet { direction: Vector { x: 0, y: 0, z: 1000 }, speed: 2500 }),
            (Entity::from_raw(2), Bullet { direction: Vector { x: -1000, y: 0, z: 0 }, speed: 3500 }),
        ]
    );
    assert_eq!(towers.len(), 3);
    assert_eq!(towers[0].entity, Entity::from_raw(1));
    assert_eq!(towers[2].tower_type, TowerType::Potato);
    assert_eq!(towers[2].transform, point(0, 0, 10_000));
    assert_eq!(towers[2].tower.shooting_timer.elapsed(), Duration::from_secs(1));
}

#[test]
fn a_tick_keeps_what_was_queued_before() {
    let assets = assets();
    let mut towers = vec![entry(1, TowerType::Tomato, point(0, 0, 0), &assets)];
    let targets = vec![point(1000, 0, 0)];
    let mut commands = Commands::new();
    commands.add(Command::DespawnRecursive { entity: Entity::from_raw(9) });
    tower_shooting(&mut commands, &mut towers, &targets, &assets, SECOND);
    assert_eq!(commands.queue.len(), 2);
    assert!(matches!(commands.queue[0], Command::DespawnRecursive { .. }));
    assert!(matches!(commands.queue[1], Command::SpawnBullet { .. }));
}

#[test]
fn a_tick_without_towers_queues_nothing() {
    let assets = assets();
    let mut towers = Vec::new();
    let mut commands = Commands::new();
    tower_shooting(&mut commands, &mut towers, &vec![point(1, 2, 3)], &assets, SECOND);
    assert!(commands.queue.is_empty());
    assert!(towers.is_empty());
}

#[test]
fn a_tick_of_fifty_days_is_counted_in_full() {
    let assets = assets();
    let targets = vec![point(1000, 0, 0)];
    let fifty_days = 50 * 24 * 60 * 60 * SECOND;
    let mut towers = vec![entry(1, TowerType::Tomato, point(0, 0, 0), &assets)];
    let mut commands = Commands::new();
    tower_shooting(&mut commands, &mut towers, &targets, &assets, fifty_days);
    assert_eq!(commands.queue.len(), 1);
    assert_eq!(towers[0].tower.shooting_timer.elapsed(), Duration::ZERO);
    assert!(towers[0].tower.shooting_timer.just_finished());
    tower_shooting(&mut commands, &mut towers, &targets, &assets, fifty_days + 295 * MILLI);
    assert_eq!(commands.queue.len(), 2);
    assert_eq!(towers[0].tower.shooting_timer.elapsed(), Duration::from_millis(295));
}

#[test]
fn a_tick_of_as_many_periods_as_the_engine_counts_is_taken() {
    let assets = assets();
    let targets = vec![point(1000, 0, 0)];
    let mut towers = vec![entry(1, TowerType::Cabbage, point(0, 0, 0), &assets)];
    let mut commands = Commands::new();
    tower_shooting(&mut commands, &mut towers, &targets, &assets, 2 * SECOND);
    let most = u32::MAX as u64 * 3 * SECOND;
    tower_shooting(&mut commands, &mut towers, &targets, &assets, most + 999 * MILLI);
    assert_eq!(commands.queue.len(), 1);
    assert_eq!(towers[0].tower.shooting_timer.elapsed(), Duration::from_millis(2999));
    assert_eq!(towers[0].tower.shooting_timer.duration(), Duration::from_secs(3));
}

#[test]
fn a_tick_of_two_periods_or_more_keeps_the_remainder() {
    let assets = assets();
    let targets = vec![point(1000, 0, 0)];
    for (delta, left) in [(2 * SECOND, 0), (2 * SECOND + 1, 1), (7 * SECOND + 999 * MILLI, 999 * MILLI)] {
        let mut towers = vec![entry(1, TowerType::Tomato, point(0, 0, 0), &assets)];
        let mut commands = Commands::new();
        tower_shooting(&mut commands, &mut towers, &targets, &assets, delta);
        assert_eq!(commands.queue.len(), 1);
        assert_eq!(towers[0].tower.shooting_timer.elapsed(), Duration::from_nanos(left));
    }
}

#[test]
fn every_kth_tick_fires_and_no_other() {
    for k in [1, 2, 3, 5, 8] {
        let delta = 2 * SECOND / k;
        if delta * k != 2 * SECOND {
            continue;
        }
        let ticks = 4 * k as usize + 1;
        let shots = shots_per_tick(TowerType::Potato, delta, ticks);
        for (at, count) in shots.iter().enumerate() {
            let expected = if (at + 1) % k as usize == 0 { 1 } else { 0 };
            assert_eq!(*count, expected);
        }
        assert_eq!(shots.iter().sum::<usize>(), ticks / k as usize);
    }
}
