//! Target acquisition and the shot.

use vstd::prelude::*;
use bevy::asset::HandleUntyped;
use bevy::ecs::entity::Entity;
use crate::assets::GameAssets;
use crate::bullet::{Bullet, Lifetime, BULLET_LIFETIME_MILLIS};
use crate::commands::{Command, CommandView, Commands, SceneBundle, SceneBundleView};
use crate::math::{Point, Vector};
use crate::timer::{new_timer, TimerState};
use crate::tower::Tower;
use crate::tower_type::TowerType;

verus! {

/// `i` is the place in `targets` of the target nearest to `from`: no target
/// is nearer, and of several equally near it is the first.
pub open spec fn is_nearest(targets: Seq<Point>, from: Vector, i: int) -> bool {
    &&& 0 <= i < targets.len()
    &&& forall|j: int|
        0 <= j < targets.len() ==> from.distance_squared(targets[i])
            <= #[trigger] from.distance_squared(targets[j])
    &&& forall|j: int|
        0 <= j < i ==> from.distance_squared(targets[i])
            < #[trigger] from.distance_squared(targets[j])
}

/// The place in `targets` of the target nearest to `from`.
pub open spec fn nearest(targets: Seq<Point>, from: Vector) -> int {
    choose|i: int| is_nearest(targets, from, i)
}

/// The heading of a shot from `from`: the displacement to the nearest target.
pub open spec fn aim(targets: Seq<Point>, from: Vector) -> Vector {
    from.towards(targets[nearest(targets, from)])
}

/// What a tower that fires asks of the engine: nothing while there is no
/// target, else one bullet of its kind under the tower, at the tower's
/// bullet offset, heading for the nearest target.
pub open spec fn shot(
    entity: Entity,
    tower_type: TowerType,
    position: Point,
    bullet_offset: Point,
    targets: Seq<Point>,
    assets: GameAssets,
) -> Seq<CommandView> {
    if targets.len() == 0 {
        Seq::empty()
    } else {
        seq![
            CommandView::SpawnBullet {
                parent: entity,
                model: SceneBundleView {
                    scene: tower_type.bullet_scene(assets),
                    transform: bullet_offset,
                },
                lifetime: TimerState::fresh(BULLET_LIFETIME_MILLIS as nat, false),
                bullet: Bullet {
                    direction: aim(targets, position.plus(bullet_offset)),
                    speed: tower_type.bullet_speed(),
                },
            },
        ]
    }
}

/// At most one place in `targets` is that of the nearest target.
pub proof fn lemma_nearest_is_unique(targets: Seq<Point>, from: Vector, i: int, k: int)
    requires
        is_nearest(targets, from, i),
        is_nearest(targets, from, k),
    ensures
        i == k,
{
    if i < k {
        assert(from.distance_squared(targets[k]) < from.distance_squared(targets[i]));
    } else if k < i {
        assert(from.distance_squared(targets[i]) < from.distance_squared(targets[k]));
    }
}

/// Whatever the targets and the firing point, as long as there is a target,
/// the target aimed at is one of them and no target is nearer to the firing
/// point than it is.
pub proof fn lemma_aims_at_nearest(targets: Seq<Point>, from: Vector)
    requires
        targets.len() > 0,
    ensures
        is_nearest(targets, from, nearest(targets, from)),
        forall|j: int|
            0 <= j < targets.len() ==> from.distance_squared(targets[nearest(targets, from)])
                <= #[trigger] from.distance_squared(targets[j]),
{
    lemma_some_target_is_nearest(targets, from);
}

proof fn lemma_some_target_is_nearest(targets: Seq<Point>, from: Vector)
    requires
        targets.len() > 0,
    ensures
        exists|i: int| is_nearest(targets, from, i),
    decreases targets.len(),
{
    if targets.len() == 1 {
        assert(is_nearest(targets, from, 0));
    } else {
        let head = targets.drop_last();
        let last = targets.len() - 1;
        lemma_some_target_is_nearest(head, from);
        let i = choose|i: int| is_nearest(head, from, i);
        assert(forall|j: int| 0 <= j < head.len() ==> head[j] == targets[j]);
        if from.distance_squared(targets[last]) < from.distance_squared(targets[i]) {
            assert(is_nearest(targets, from, last));
        } else {
            assert(is_nearest(targets, from, i));
        }
    }
}

/// A tower about to shoot: its entity, its kind and its place in the world.
pub struct TowerShooter<'a> {
    pub entity: Entity,
    pub tower_type: &'a TowerType,
    pub transform: &'a Point,
}

impl<'a> TowerShooter<'a> {
    pub fn new(entity: Entity, tower_type: &'a TowerType, transform: &'a Point) -> (shooter: Self)
        ensures
            shooter.entity == entity,
            *shooter.tower_type == *tower_type,
            *shooter.transform == *transform,
    {
        TowerShooter { entity, tower_type, transform }
    }

    /// The firing point of `tower` at this place.
    pub open spec fn bullet_spawn(&self, tower: &Tower) -> Vector {
        self.transform.plus(tower.bullet_offset)
    }

    fn get_bullet_spawn(&self, tower: &Tower) -> (spawn: Vector)
        ensures
            spawn == self.bullet_spawn(tower),
            spawn.in_reach(),
    {
        self.transform.offset_by(&tower.bullet_offset)
    }

    fn distance_from(&self, target: &Point, bullet_spawn: &Vector) -> (square: u128)
        requires
            bullet_spawn.in_reach(),
        ensures
            square == bullet_spawn.distance_squared(*target),
    {
        bullet_spawn.distance_squared_to(target)
    }

    /// The heading of a shot of `tower` from this place: none while there is
    /// no target, else the displacement from the firing point to the nearest
    /// target.
    pub fn get_direction(&self, tower: &Tower, targets: &Vec<Point>) -> (direction: Option<Vector>)
        ensures
            targets.len() == 0 ==> direction is None,
            targets.len() > 0 ==> direction == Some(aim(targets@, self.bullet_spawn(tower))),
    {
        let bullet_spawn = self.get_bullet_spawn(tower);
        if targets.len() == 0 {
            return None;
        }
        let mut closest: usize = 0;
        let mut least = self.distance_from(&targets[0], &bullet_spawn);
        let mut i: usize = 1;
        while i < targets.len()
            invariant
                bullet_spawn.in_reach(),
                0 <= closest < i <= targets.len(),
                least == bullet_spawn.distance_squared(targets@[closest as int]),
                forall|j: int|
                    0 <= j < i ==> least <= #[trigger] bullet_spawn.distance_squared(targets@[j]),
                forall|j: int|
                    0 <= j < closest ==> least
                        < #[trigger] bullet_spawn.distance_squared(targets@[j]),
            decreases targets.len() - i,
        {
            let distance = self.distance_from(&targets[i], &bullet_spawn);
            if distance < least {
                closest = i;
                least = distance;
            }
            i += 1;
        }
        proof {
            lemma_nearest_is_unique(
                targets@,
                bullet_spawn,
                closest as int,
                nearest(targets@, bullet_spawn),
            );
        }
        Some(bullet_spawn.direction_to(&targets[closest]))
    }

    /// Fires `tower` from this place: queues the bullet, if there is a
    /// target to fire at. The request borrows the bullet's model from
    /// `bullet_assets`.
    pub fn shoot_from<'b>(
        &self,
        commands: &mut Commands<'b>,
        tower: &Tower,
        targets: &Vec<Point>,
        bullet_assets: &'b GameAssets,
    )
        ensures
            final(commands)@ == old(commands)@ + shot(
                self.entity,
                *self.tower_type,
                *self.transform,
                tower.bullet_offset,
                targets@,
                *bullet_assets,
            ),
    {
        if let Some(direction) = self.get_direction(tower, targets) {
            self.shoot_direction(commands, tower, direction, bullet_assets)
        } else {
            return ;
        }
    }

    fn shoot_direction<'b>(
        &self,
        commands: &mut Commands<'b>,
        tower: &Tower,
        direction: Vector,
        bullet_assets: &'b GameAssets,
    )
        ensures
            final(commands)@ == old(commands)@.push(
                CommandView::SpawnBullet {
                    parent: self.entity,
                    model: SceneBundleView {
                        scene: self.tower_type.bullet_scene(*bullet_assets),
                        transform: tower.bullet_offset,
                    },
                    lifetime: TimerState::fresh(BULLET_LIFETIME_MILLIS as nat, false),
                    bullet: Bullet { direction, speed: self.tower_type.bullet_speed() },
                },
            ),
    {
        let (model, bullet) = self.tower_type.get_bullet(direction, bullet_assets);
        self.spawn(commands, tower, model, bullet)
    }

    fn bullet_lifetime(&self) -> (lifetime: Lifetime)
        ensures
            lifetime@ == TimerState::fresh(BULLET_LIFETIME_MILLIS as nat, false),
    {
        Lifetime { timer: new_timer(BULLET_LIFETIME_MILLIS, false) }
    }

    fn scene_bundle<'b>(&self, tower: &Tower, scene: &'b HandleUntyped) -> (bundle: SceneBundle<'b>)
        ensures
            bundle@ == (SceneBundleView { scene: *scene, transform: tower.bullet_offset }),
    {
        SceneBundle { scene, transform: tower.bullet_offset }
    }

    fn spawn<'b>(
        &self,
        commands: &mut Commands<'b>,
        tower: &Tower,
        scene: &'b HandleUntyped,
        bullet: Bullet,
    )
        ensures
            final(commands)@ == old(commands)@.push(
                CommandView::SpawnBullet {
                    parent: self.entity,
                    model: SceneBundleView { scene: *scene, transform: tower.bullet_offset },
                    lifetime: TimerState::fresh(BULLET_LIFETIME_MILLIS as nat, false),
                    bullet,
                },
            ),
    {
        commands.add(
            Command::SpawnBullet {
                parent: self.entity,
                model: self.scene_bundle(tower, scene),
                lifetime: self.bullet_lifetime(),
                bullet,
            },
        );
    }
}

} // verus!
