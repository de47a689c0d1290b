//! A placed tower, its countdown, and the tick in which it may fire.

use vstd::prelude::*;
use vstd::arithmetic::div_mod::{
    lemma_basic_div, lemma_div_multiples_vanish_quotient, lemma_div_plus_one,
    lemma_fundamental_div_mod, lemma_fundamental_div_mod_converse, lemma_mod_self_0,
    lemma_small_mod, lemma_truncate_middle,
};
use bevy::ecs::entity::Entity;
use bevy::time::Timer;
use crate::assets::GameAssets;
use crate::commands::{Command, CommandView, Commands, SceneBundle, SceneBundleView};
use crate::math::Point;
use crate::shooter::{shot, TowerShooter};
use crate::timer::{just_finished, tick_timer, timer_state, TimerState};
use crate::tower_type::TowerType;

verus! {

/// The state of a placed tower: the countdown to its next shot and the
/// offset from its place at which its bullets appear.
pub struct Tower {
    pub shooting_timer: Timer,
    pub bullet_offset: Point,
}

/// A tower as the contracts see it.
pub struct TowerView {
    pub timer: TimerState,
    pub bullet_offset: Point,
}

impl View for Tower {
    type V = TowerView;

    open spec fn view(&self) -> TowerView {
        TowerView { timer: timer_state(self.shooting_timer), bullet_offset: self.bullet_offset }
    }
}

impl TowerView {
    /// A tower whose countdown runs.
    pub open spec fn wf(self) -> bool {
        self.timer.runs()
    }

    /// The tower `delta` nanoseconds later.
    pub open spec fn after(self, delta: nat) -> TowerView {
        TowerView { timer: self.timer.after(delta), bullet_offset: self.bullet_offset }
    }
}

impl Tower {
    /// Holds of every tower that this crate makes, and after every tick.
    pub open spec fn wf(&self) -> bool {
        self@.wf()
    }
}

/// A tower in the world: its entity, its state, its kind and its place.
pub struct TowerEntry {
    pub entity: Entity,
    pub tower: Tower,
    pub tower_type: TowerType,
    pub transform: Point,
}

/// What one tower asks of the engine in a tick of `delta` nanoseconds: its
/// shot if its countdown expires in this tick, nothing otherwise. A tick in
/// which several periods end brings one shot.
pub open spec fn salvo(
    entry: TowerEntry,
    targets: Seq<Point>,
    assets: GameAssets,
    delta: u64,
) -> Seq<CommandView> {
    if entry.tower@.timer.expires_within(delta as nat) {
        shot(
            entry.entity,
            entry.tower_type,
            entry.transform,
            entry.tower.bullet_offset,
            targets,
            assets,
        )
    } else {
        Seq::empty()
    }
}

/// What the towers ask of the engine in a tick of `delta` nanoseconds, tower
/// by tower in their order.
pub open spec fn volley(
    towers: Seq<TowerEntry>,
    targets: Seq<Point>,
    assets: GameAssets,
    delta: u64,
) -> Seq<CommandView>
    decreases towers.len(),
{
    if towers.len() == 0 {
        Seq::empty()
    } else {
        volley(towers.drop_last(), targets, assets, delta) + salvo(
            towers.last(),
            targets,
            assets,
            delta,
        )
    }
}

/// The request to spawn a tower of the given kind at `position`: the tower
/// as it is built, with the model of its kind as a child below it.
pub open spec fn tower_request(
    position: Point,
    tower_type: TowerType,
    assets: GameAssets,
) -> CommandView {
    CommandView::SpawnTower {
        position,
        tower_type,
        tower: tower_type.fresh_tower(),
        model: SceneBundleView {
            scene: tower_type.tower_scene(assets),
            transform: Point { x: 0, y: (-800i32), z: 0 },
        },
    }
}

/// The countdown after `ticks` ticks of `delta` nanoseconds each.
pub open spec fn after_ticks(timer: TimerState, delta: nat, ticks: nat) -> TimerState
    decreases ticks,
{
    if ticks == 0 {
        timer
    } else {
        after_ticks(timer, delta, (ticks - 1) as nat).after(delta)
    }
}

/// In how many of the first `ticks` ticks of `delta` nanoseconds each the
/// countdown expires: how often the tower fires in them.
pub open spec fn expiries(timer: TimerState, delta: nat, ticks: nat) -> nat
    decreases ticks,
{
    if ticks == 0 {
        0
    } else {
        let earlier = expiries(timer, delta, (ticks - 1) as nat);
        if after_ticks(timer, delta, (ticks - 1) as nat).expires_within(delta) {
            earlier + 1
        } else {
            earlier
        }
    }
}

/// A tick leaves a running countdown running, and the engine can count the
/// periods that end in it as long as the tick is no longer than `u32::MAX`
/// periods.
pub proof fn lemma_tick_fits(timer: TimerState, delta: nat)
    requires
        timer.runs(),
    ensures
        timer.after(delta).runs(),
        delta <= timer.duration * u32::MAX ==> timer.periods_within(delta) <= u32::MAX,
{
    let p = timer.duration as int;
    let total = (timer.elapsed + delta) as int;
    assert(0 <= total % p < p) by (nonlinear_arith)
        requires
            p > 0,
    ;
    if delta <= timer.duration * u32::MAX {
        assert(total / p < 0x1_0000_0000) by (nonlinear_arith)
            requires
                0 <= total < p + p * 0xffff_ffff,
                p > 0,
        ;
    }
}

/// A tower fires at most once a tick, and fires exactly if its countdown
/// expires in the tick and there is a target.
pub proof fn lemma_one_shot_a_tick(
    entry: TowerEntry,
    targets: Seq<Point>,
    assets: GameAssets,
    delta: u64,
)
    ensures
        salvo(entry, targets, assets, delta).len() <= 1,
        salvo(entry, targets, assets, delta).len() == 1 <==> entry.tower@.timer.expires_within(
            delta as nat,
        ) && targets.len() > 0,
{
}

/// A tower fires once a period, however fine the ticks. Take a running
/// countdown, wherever in its period, and tick it in steps that divide the
/// period. Every such tick is one that [`tower_shooting`] takes. After any
/// number of ticks, the time into the current period and the number of
/// expiries so far are the remainder and the quotient, by the period, of the
/// time since the period began in which the ticking started. So over any
/// further ticks that add up to one period the countdown expires exactly
/// once.
pub proof fn lemma_fires_once_a_period(timer: TimerState, delta: nat, ticks: nat)
    requires
        timer.runs(),
        delta > 0,
        timer.duration % delta == 0,
    ensures
        after_ticks(timer, delta, ticks).runs(),
        after_ticks(timer, delta, ticks).duration == timer.duration,
        after_ticks(timer, delta, ticks).periods_within(delta) <= 1,
        after_ticks(timer, delta, ticks).elapsed == (timer.elapsed + ticks * delta)
            % timer.duration,
        expiries(timer, delta, ticks) == (timer.elapsed + ticks * delta) / timer.duration,
        expiries(timer, delta, ticks + timer.duration / delta) == expiries(timer, delta, ticks)
            + 1,
{
    let p = timer.duration as int;
    let d = delta as int;
    let m = p / d;
    lemma_fundamental_div_mod(p, d);
    assert(p == m * d && 0 < m && d <= p) by (nonlinear_arith)
        requires
            p == d * m + 0,
            0 < d,
            0 < p,
    ;
    lemma_ticks(timer, delta, ticks);
    lemma_ticks(timer, delta, ticks + m as nat);
    let gone = timer.elapsed + ticks * delta;
    assert(timer.elapsed + (ticks + m) * d == p + gone) by (nonlinear_arith)
        requires
            p == m * d,
            gone == timer.elapsed + ticks * d,
    ;
    lemma_div_plus_one(gone as int, p);
}

/// A freshly built tower that is ticked in steps of one `k`-th of its period
/// fires in every `k`-th tick and in no other: after `ticks` ticks it has
/// fired `ticks / k` times, and the next tick is one in which it fires
/// exactly if its number is a multiple of `k`.
pub proof fn lemma_fresh_tower_fires_every_kth_tick(timer: TimerState, delta: nat, ticks: nat)
    requires
        timer.runs(),
        timer.elapsed == 0,
        delta > 0,
        timer.duration % delta == 0,
    ensures
        expiries(timer, delta, ticks) == ticks / (timer.duration / delta),
        after_ticks(timer, delta, ticks).expires_within(delta) <==> (ticks + 1) % (timer.duration
            / delta) == 0,
{
    let p = timer.duration as int;
    let d = delta as int;
    let n = ticks as int;
    let k = p / d;
    lemma_fundamental_div_mod(p, d);
    assert(p == d * k && 0 < k) by (nonlinear_arith)
        requires
            p == d * k + 0,
            0 < d,
            0 < p,
    ;
    lemma_fires_once_a_period(timer, delta, ticks);
    assert(timer.elapsed + ticks * delta == d * n) by (nonlinear_arith)
        requires
            timer.elapsed == 0,
            d == delta,
            n == ticks,
    ;
    lemma_div_multiples_vanish_quotient(d, n, k);
    lemma_truncate_middle(n, d, k);
    let r = n % k;
    lemma_fundamental_div_mod(n, k);
    assert(0 <= r < k) by (nonlinear_arith)
        requires
            r == n % k,
            k > 0,
    ;
    assert(d * r + d >= d * k <==> r + 1 >= k) by (nonlinear_arith)
        requires
            0 < d,
    ;
    if r + 1 == k {
        assert(n + 1 == (n / k + 1) * k + 0) by (nonlinear_arith)
            requires
                n == k * (n / k) + r,
                r + 1 == k,
        ;
        lemma_fundamental_div_mod_converse(n + 1, k, n / k + 1, 0);
    } else {
        assert(n + 1 == (n / k) * k + (r + 1)) by (nonlinear_arith)
            requires
                n == k * (n / k) + r,
        ;
        lemma_fundamental_div_mod_converse(n + 1, k, n / k, r + 1);
    }
}

/// The shots depend on the time that has gone by, not on how it was cut
/// into ticks: two runs of ticks that divide the period and add up to the
/// same time leave the countdown at the same point, after the same number
/// of expiries.
pub proof fn lemma_shots_depend_on_time_only(
    timer: TimerState,
    delta1: nat,
    ticks1: nat,
    delta2: nat,
    ticks2: nat,
)
    requires
        timer.runs(),
        delta1 > 0,
        delta2 > 0,
        timer.duration % delta1 == 0,
        timer.duration % delta2 == 0,
        ticks1 * delta1 == ticks2 * delta2,
    ensures
        expiries(timer, delta1, ticks1) == expiries(timer, delta2, ticks2),
        after_ticks(timer, delta1, ticks1).elapsed == after_ticks(timer, delta2, ticks2).elapsed,
{
    lemma_fires_once_a_period(timer, delta1, ticks1);
    lemma_fires_once_a_period(timer, delta2, ticks2);
}

/// The closed form of ticking in steps of at most one period: a tick ends at
/// most one period, so the expiries count the periods gone by.
proof fn lemma_ticks(timer: TimerState, delta: nat, ticks: nat)
    requires
        timer.runs(),
        0 < delta <= timer.duration,
    ensures
        after_ticks(timer, delta, ticks).runs(),
        after_ticks(timer, delta, ticks).duration == timer.duration,
        after_ticks(timer, delta, ticks).periods_within(delta) <= 1,
        after_ticks(timer, delta, ticks).elapsed == (timer.elapsed + ticks * delta)
            % timer.duration,
        expiries(timer, delta, ticks) == (timer.elapsed + ticks * delta) / timer.duration,
    decreases ticks,
{
    let p = timer.duration as int;
    if ticks == 0 {
        assert(timer.elapsed + 0 * delta == timer.elapsed) by (nonlinear_arith);
        lemma_small_mod(timer.elapsed, timer.duration);
        lemma_basic_div(timer.elapsed as int, p);
    } else {
        let earlier = (ticks - 1) as nat;
        lemma_ticks(timer, delta, earlier);
        let before = after_ticks(timer, delta, earlier);
        let gone = (timer.elapsed + earlier * delta) as int;
        let periods = gone / p;
        lemma_fundamental_div_mod(gone, p);
        assert(timer.elapsed + ticks * delta == gone + delta) by (nonlinear_arith)
            requires
                gone == timer.elapsed + earlier * delta,
                ticks == earlier + 1,
        ;
        if before.expires_within(delta) {
            let left = before.elapsed + delta - p;
            assert(gone + delta == (periods + 1) * p + left) by (nonlinear_arith)
                requires
                    gone == p * periods + before.elapsed,
                    left == before.elapsed + delta - p,
            ;
            lemma_fundamental_div_mod_converse(gone + delta, p, periods + 1, left);
            lemma_fundamental_div_mod_converse((before.elapsed + delta) as int, p, 1, left);
        } else {
            let left = (before.elapsed + delta) as int;
            assert(gone + delta == periods * p + left) by (nonlinear_arith)
                requires
                    gone == p * periods + before.elapsed,
                    left == before.elapsed + delta,
            ;
            lemma_fundamental_div_mod_converse(gone + delta, p, periods, left);
            lemma_small_mod(left as nat, timer.duration);
        }
    }
    let now = after_ticks(timer, delta, ticks);
    assert((now.elapsed + delta) / timer.duration <= 1) by (nonlinear_arith)
        requires
            now.elapsed < timer.duration,
            delta <= timer.duration,
            0 < timer.duration,
    ;
}

/// A dry fire asks for nothing: while there is no target, no tower queues a
/// request, whether its countdown expires in the tick or not.
pub proof fn lemma_dry_fire(towers: Seq<TowerEntry>, assets: GameAssets, delta: u64)
    ensures
        volley(towers, Seq::<Point>::empty(), assets, delta) == Seq::<CommandView>::empty(),
    decreases towers.len(),
{
    if towers.len() > 0 {
        lemma_dry_fire(towers.drop_last(), assets, delta);
        assert(volley(towers, Seq::<Point>::empty(), assets, delta)
            =~= Seq::<CommandView>::empty());
    }
}

/// A countdown that expires starts over, with or without a shot: the tick
/// leaves it running, part way through a period, and at the very start of
/// one where the tick ended on the expiry.
pub proof fn lemma_countdown_starts_over(tower: TowerView, delta: nat)
    requires
        tower.wf(),
        tower.timer.expires_within(delta),
    ensures
        tower.after(delta).wf(),
        tower.after(delta).timer.just_finished,
        tower.after(delta).timer.elapsed < tower.timer.duration,
        tower.timer.elapsed + delta == tower.timer.duration ==> tower.after(delta).timer.elapsed
            == 0,
{
    lemma_tick_fits(tower.timer, delta);
    if tower.timer.elapsed + delta == tower.timer.duration {
        lemma_mod_self_0(tower.timer.duration as int);
    }
}

/// Advances every tower by one tick of `delta` nanoseconds and fires those
/// whose countdown expired in it.
///
/// Each countdown moves on by `delta` and starts over where it expires,
/// keeping what the tick went beyond the last expiry, whether or not there
/// was a target to fire at. The requests of the towers that fired are queued
/// in the order of the towers, and borrow the models from `bullet_assets`.
///
/// The engine counts the periods that end in one tick in 32 bits, so the
/// tick must not span more periods of any tower than that:
/// [`lemma_tick_fits`] shows that a tick of at most `u32::MAX` periods is
/// short enough.
pub fn tower_shooting<'a>(
    commands: &mut Commands<'a>,
    towers: &mut Vec<TowerEntry>,
    targets: &Vec<Point>,
    bullet_assets: &'a GameAssets,
    delta: u64,
)
    requires
        forall|i: int|
            0 <= i < old(towers).len() ==> {
                &&& (#[trigger] old(towers)[i]).tower.wf()
                &&& old(towers)[i].tower@.timer.periods_within(delta as nat) <= u32::MAX
            },
    ensures
        final(towers).len() == old(towers).len(),
        forall|i: int|
            0 <= i < old(towers).len() ==> {
                &&& (#[trigger] final(towers)[i]).entity == old(towers)[i].entity
                &&& final(towers)[i].tower_type == old(towers)[i].tower_type
                &&& final(towers)[i].transform == old(towers)[i].transform
                &&& final(towers)[i].tower@ == old(towers)[i].tower@.after(delta as nat)
                &&& final(towers)[i].tower.wf()
            },
        final(commands)@ == old(commands)@ + volley(
            old(towers)@,
            targets@,
            *bullet_assets,
            delta,
        ),
{
    let mut i: usize = 0;
    while i < towers.len()
        invariant
            0 <= i <= towers.len(),
            towers.len() == old(towers).len(),
            forall|k: int| i <= k < towers.len() ==> towers[k] == old(towers)[k],
            forall|k: int|
                i <= k < towers.len() ==> {
                    &&& (#[trigger] old(towers)[k]).tower.wf()
                    &&& old(towers)[k].tower@.timer.periods_within(delta as nat) <= u32::MAX
                },
            forall|k: int|
                0 <= k < i ==> {
                    &&& (#[trigger] towers[k]).entity == old(towers)[k].entity
                    &&& towers[k].tower_type == old(towers)[k].tower_type
                    &&& towers[k].transform == old(towers)[k].transform
                    &&& towers[k].tower@ == old(towers)[k].tower@.after(delta as nat)
                    &&& towers[k].tower.wf()
                },
            commands@ == old(commands)@ + volley(
                old(towers)@.take(i as int),
                targets@,
                *bullet_assets,
                delta,
            ),
        decreases towers.len() - i,
    {
        let entry = &mut towers[i];
        let tower_shooter = TowerShooter::new(entry.entity, &entry.tower_type, &entry.transform);
        proof {
            lemma_tick_fits(entry.tower@.timer, delta as nat);
        }
        tick_timer(&mut entry.tower.shooting_timer, delta);
        if just_finished(&entry.tower.shooting_timer) {
            tower_shooter.shoot_from(commands, &entry.tower, targets, bullet_assets)
        }
        assert(old(towers)@.take(i + 1).drop_last() =~= old(towers)@.take(i as int));
        i += 1;
    }
    assert(old(towers)@.take(i as int) =~= old(towers)@);
}

/// Queues the request to spawn a tower of the given kind at `position` and
/// returns the place of the request in the queue. The request borrows the
/// tower's model from `assets`.
pub fn spawn_tower<'a>(
    commands: &mut Commands<'a>,
    assets: &'a GameAssets,
    position: Point,
    tower_type: TowerType,
) -> (place: usize)
    ensures
        final(commands)@ == old(commands)@.push(tower_request(position, tower_type, *assets)),
        place == old(commands)@.len(),
{
    let (tower_scene, tower) = tower_type.get_tower(assets);
    commands.add(
        Command::SpawnTower {
            position,
            tower_type,
            tower,
            model: SceneBundle { scene: tower_scene, transform: Point { x: 0, y: -800, z: 0 } },
        },
    )
}

} // verus!
