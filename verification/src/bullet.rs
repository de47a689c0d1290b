//! What a tower shoots.

use vstd::prelude::*;
use bevy::time::Timer;
use crate::math::Vector;
use crate::timer::{timer_state, TimerState};

verus! {

/// How long a bullet lasts before the engine removes it, in milliseconds.
pub const BULLET_LIFETIME_MILLIS: u32 = 10_000;

/// A projectile in flight. It keeps the heading it was fired with: the
/// displacement from the firing point to the target at that moment, not
/// normalised. The speed is in thousandths of a world unit per second.
#[derive(Clone, Copy, Debug, PartialEq, Eq, Structural)]
pub struct Bullet {
    pub direction: Vector,
    pub speed: u32,
}

/// The countdown after which the engine removes an entity.
pub struct Lifetime {
    pub timer: Timer,
}

impl View for Lifetime {
    type V = TimerState;

    open spec fn view(&self) -> TimerState {
        timer_state(self.timer)
    }
}

} // verus!
