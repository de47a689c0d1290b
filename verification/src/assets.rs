//! Handles of the models that the game shows.
//!
//! The rules never load, decode or copy a model's handle. They pick one by
//! the kind of tower and lend it to the request that they queue.

use vstd::prelude::*;
use bevy::asset::HandleUntyped;

verus! {

/// Declares the engine's `HandleUntyped`, so that it can stand in fields and
/// signatures. A handle is only ever borrowed and passed on.
#[verifier::external_type_specification]
#[verifier::external_body]
pub struct ExHandleUntyped(bevy::asset::HandleUntyped);

/// The models of the game, as the engine's asset server handed them out.
pub struct GameAssets {
    pub bullet_scene: HandleUntyped,
    pub tower_base_scene: HandleUntyped,
    pub tomato_tower_scene: HandleUntyped,
    pub tomato_scene: HandleUntyped,
    pub potato_tower_scene: HandleUntyped,
    pub potato_scene: HandleUntyped,
    pub cabbage_tower_scene: HandleUntyped,
    pub cabbage_scene: HandleUntyped,
    pub target_scene: HandleUntyped,
}

} // verus!
