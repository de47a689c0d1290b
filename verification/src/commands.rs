//! Requests to the engine.
//!
//! The rules change nothing in the world themselves. They queue requests to
//! spawn or despawn entities, and the engine carries the queue out in order
//! once the tick is over.

use vstd::prelude::*;
use bevy::asset::HandleUntyped;
use bevy::ecs::entity::Entity;
use crate::bullet::{Bullet, Lifetime};
use crate::math::Point;
use crate::timer::TimerState;
use crate::tower::{Tower, TowerView};
use crate::tower_type::TowerType;

verus! {

/// Declares the engine's `Entity`, so that it can stand in fields and
/// signatures. An entity is only ever passed on.
#[verifier::external_type_specification]
#[verifier::external_body]
pub struct ExEntity(bevy::ecs::entity::Entity);

/// A model and the place at which it is shown, relative to the entity that
/// it is spawned under. The handle is borrowed from the game's assets.
pub struct SceneBundle<'a> {
    pub scene: &'a HandleUntyped,
    pub transform: Point,
}

/// A scene bundle as the contracts see it.
pub struct SceneBundleView {
    pub scene: HandleUntyped,
    pub transform: Point,
}

impl<'a> View for SceneBundle<'a> {
    type V = SceneBundleView;

    open spec fn view(&self) -> SceneBundleView {
        SceneBundleView { scene: *self.scene, transform: self.transform }
    }
}

/// A button of the build menu: the icon it shows and the kind of tower that
/// a click on it builds. The icon's handle is borrowed.
pub struct TowerButton<'a> {
    pub icon: &'a HandleUntyped,
    pub tower_type: TowerType,
}

/// A button as the contracts see it.
pub struct TowerButtonView {
    pub icon: HandleUntyped,
    pub tower_type: TowerType,
}

impl<'a> View for TowerButton<'a> {
    type V = TowerButtonView;

    open spec fn view(&self) -> TowerButtonView {
        TowerButtonView { icon: *self.icon, tower_type: self.tower_type }
    }
}

/// One request to the engine.
pub enum Command<'a> {
    /// Remove `entity` and all its descendants.
    DespawnRecursive { entity: Entity },
    /// Spawn a tower at `position`, with `model` as its child.
    SpawnTower { position: Point, tower_type: TowerType, tower: Tower, model: SceneBundle<'a> },
    /// Spawn a bullet as a child of `parent`, shown by `model`.
    SpawnBullet { parent: Entity, model: SceneBundle<'a>, lifetime: Lifetime, bullet: Bullet },
    /// Spawn the build menu, with `buttons` in this order.
    SpawnUi { buttons: Vec<TowerButton<'a>> },
}

/// A request as the contracts see it: each timer by its state, each handle
/// by its value, the buttons as a sequence.
pub enum CommandView {
    DespawnRecursive { entity: Entity },
    SpawnTower {
        position: Point,
        tower_type: TowerType,
        tower: TowerView,
        model: SceneBundleView,
    },
    SpawnBullet { parent: Entity, model: SceneBundleView, lifetime: TimerState, bullet: Bullet },
    SpawnUi { buttons: Seq<TowerButtonView> },
}

impl<'a> View for Command<'a> {
    type V = CommandView;

    open spec fn view(&self) -> CommandView {
        match *self {
            Command::DespawnRecursive { entity } => CommandView::DespawnRecursive { entity },
            Command::SpawnTower { position, tower_type, tower, model } => CommandView::SpawnTower {
                position,
                tower_type,
                tower: tower@,
                model: model@,
            },
            Command::SpawnBullet { parent, model, lifetime, bullet } => CommandView::SpawnBullet {
                parent,
                model: model@,
                lifetime: lifetime@,
                bullet,
            },
            Command::SpawnUi { buttons } => CommandView::SpawnUi {
                buttons: buttons@.map_values(|button: TowerButton<'a>| button@),
            },
        }
    }
}

/// The queue of requests of one tick, oldest first.
pub struct Commands<'a> {
    pub queue: Vec<Command<'a>>,
}

impl<'a> View for Commands<'a> {
    type V = Seq<CommandView>;

    open spec fn view(&self) -> Seq<CommandView> {
        self.queue@.map_values(|command: Command<'a>| command@)
    }
}

impl<'a> Commands<'a> {
    /// An empty queue.
    pub fn new() -> (commands: Commands<'a>)
        ensures
            commands@ == Seq::<CommandView>::empty(),
    {
        Commands { queue: Vec::new() }
    }

    /// Adds `command` at the end of the queue and returns its place there.
    pub fn add(&mut self, command: Command<'a>) -> (place: usize)
        ensures
            final(self)@ == old(self)@.push(command@),
            place == old(self)@.len(),
    {
        let place = self.queue.len();
        self.queue.push(command);
        place
    }
}

} // verus!
