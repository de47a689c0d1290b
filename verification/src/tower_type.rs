//! The kinds of tower and what is fixed for each of them.

use vstd::prelude::*;
use bevy::asset::HandleUntyped;
use bevy::time::Timer;
use crate::assets::GameAssets;
use crate::bullet::Bullet;
use crate::math::{Point, Vector};
use crate::timer::{new_timer, timer_state, TimerState};
use crate::tower::{Tower, TowerView};

verus! {

/// The kinds of tower that a player can build.
#[derive(Clone, Copy, Debug, PartialEq, Eq, Structural)]
pub enum TowerType {
    Tomato,
    Potato,
    Cabbage,
}

impl TowerType {
    /// The time between two shots, in milliseconds.
    pub open spec fn cooldown_millis(self) -> nat {
        match self {
            TowerType::Tomato => 1000,
            TowerType::Potato => 2000,
            TowerType::Cabbage => 3000,
        }
    }

    /// The speed of a bullet, in thousandths of a world unit per second.
    pub open spec fn bullet_speed(self) -> u32 {
        match self {
            TowerType::Tomato => 3500,
            TowerType::Potato => 6500,
            TowerType::Cabbage => 2500,
        }
    }

    /// Where a bullet appears, relative to the tower. It is the same for
    /// every kind.
    pub open spec fn fire_offset(self) -> Point {
        Point { x: 0, y: 600, z: 0 }
    }

    /// The model of the built tower.
    pub open spec fn tower_scene(self, assets: GameAssets) -> HandleUntyped {
        match self {
            TowerType::Tomato => assets.tomato_tower_scene,
            TowerType::Potato => assets.potato_tower_scene,
            TowerType::Cabbage => assets.cabbage_tower_scene,
        }
    }

    /// The model of the bullet.
    pub open spec fn bullet_scene(self, assets: GameAssets) -> HandleUntyped {
        match self {
            TowerType::Tomato => assets.tomato_scene,
            TowerType::Potato => assets.potato_scene,
            TowerType::Cabbage => assets.cabbage_scene,
        }
    }

    /// A tower of this kind as it is built: its countdown at the start of
    /// the first period.
    pub open spec fn fresh_tower(self) -> TowerView {
        TowerView {
            timer: TimerState::fresh(self.cooldown_millis(), true),
            bullet_offset: self.fire_offset(),
        }
    }

    fn timer(&self, millis: u32) -> (timer: Timer)
        ensures
            timer_state(timer) == TimerState::fresh(millis as nat, true),
    {
        new_timer(millis, true)
    }

    fn create_tower(&self, millis: u32) -> (tower: Tower)
        ensures
            tower@ == (TowerView {
                timer: TimerState::fresh(millis as nat, true),
                bullet_offset: self.fire_offset(),
            }),
    {
        Tower { shooting_timer: self.timer(millis), bullet_offset: self.offset() }
    }

    fn create_bullet(&self, direction: Vector, speed: u32) -> (bullet: Bullet)
        ensures
            bullet == (Bullet { direction, speed }),
    {
        Bullet { direction, speed }
    }

    fn offset(&self) -> (offset: Point)
        ensures
            offset == self.fire_offset(),
    {
        Point { x: 0, y: 600, z: 0 }
    }

    /// The model of a tower of this kind, lent from `assets`, and the state
    /// of the tower as it is built.
    pub fn get_tower<'a>(&self, assets: &'a GameAssets) -> (built: (&'a HandleUntyped, Tower))
        ensures
            *built.0 == self.tower_scene(*assets),
            built.1@ == self.fresh_tower(),
            built.1.wf(),
    {
        match self {
            TowerType::Tomato => (&assets.tomato_tower_scene, self.create_tower(1000)),
            TowerType::Potato => (&assets.potato_tower_scene, self.create_tower(2000)),
            TowerType::Cabbage => (&assets.cabbage_tower_scene, self.create_tower(3000)),
        }
    }

    /// The model of a bullet of this kind, lent from `assets`, and the
    /// bullet itself, flying along `direction` at the speed of the kind.
    pub fn get_bullet<'a>(
        &self,
        direction: Vector,
        assets: &'a GameAssets,
    ) -> (shot: (&'a HandleUntyped, Bullet))
        ensures
            *shot.0 == self.bullet_scene(*assets),
            shot.1 == (Bullet { direction, speed: self.bullet_speed() }),
    {
        match self {
            TowerType::Tomato => (&assets.tomato_scene, self.create_bullet(direction, 3500)),
            TowerType::Potato => (&assets.potato_scene, self.create_bullet(direction, 6500)),
            TowerType::Cabbage => (&assets.cabbage_scene, self.create_bullet(direction, 2500)),
        }
    }
}

} // verus!
