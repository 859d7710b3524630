//! The combat resolver: health and damage application, the melee range and
//! facing tests, the player's sword swing against every enemy in reach, the
//! enemies' cooldown-gated bites, enemy chase decisions, and the despawn
//! sweep that removes dead enemies once their death animation has played out.

use vstd::prelude::*;
use crate::actor::{Actor, Position};
use crate::axol::{Axol, DESPAWN_GRACE_MS};
use crate::events::{AxolBiteEvent, SwordHitEvent, WalkEvent};
use crate::nowalk::LevelNoWalk;
use crate::player_movement::{WALK_SPEED, spec_dest, spec_walkable};
use crate::score::Score;
use crate::sprite::{AnimFrame, AnimState, MoveDir};
use crate::timer::Timer;

verus! {

/// Current health (signed: it may go below zero transiently on the killing
/// blow) and maximum health.
#[derive(Clone, Copy, Debug, PartialEq, Eq, Structural)]
pub struct Health(pub i8, pub u8);

impl Health {
    /// Maximum health fits the signed current-health field, so the two can
    /// be compared and a reset to full health is representable.
    pub open spec fn wf(self) -> bool {
        self.1 <= i8::MAX
    }

    /// Below full health: chooses the injured animation variants.
    pub open spec fn spec_injured(self) -> bool {
        self.0 < self.1
    }

    pub fn injured(&self) -> (b: bool)
        requires
            self.wf(),
        ensures
            b == self.spec_injured(),
    {
        self.0 < self.1 as i8
    }

    /// The value the health display shows: current health clamped at zero.
    /// Internally health may go below zero on the killing blow; the player
    /// never sees a negative number.
    pub fn display_value(&self) -> (r: i8)
        ensures
            r == if self.0 < 0 {
                0i8
            } else {
                self.0
            },
    {
        if self.0 < 0 {
            0
        } else {
            self.0
        }
    }
}

/// Gates how often an enemy may attempt a bite.
#[derive(Clone, Copy, Debug)]
pub struct AttackCooldown(pub crate::timer::Timer);

/// Smallest damage a single blow can roll.
pub const DAMAGE_MIN: u8 = 1;

/// Largest damage a single blow can roll.
pub const DAMAGE_MAX: u8 = 6;

/// Score bonus awarded for each enemy death.
pub const KILL_BONUS: usize = 100;

/// Melee reach, in tenths of a world unit.
pub const MELEE_RANGE: i32 = 700;

/// Relies on rand::thread_rng and rand::Rng::gen_range: a draw from the
/// inclusive range `lo..=hi`, uniform over it. Only the bounds are assumed;
/// every outcome within them must be handled.
#[verifier::external_body]
pub(crate) fn roll_in_range(lo: u8, hi: u8) -> (r: u8)
    requires
        lo <= hi,
    ensures
        lo <= r <= hi,
{
    rand::Rng::gen_range(&mut rand::thread_rng(), lo..=hi)
}

/// One random damage roll, in `DAMAGE_MIN..=DAMAGE_MAX`.
pub fn roll_damage() -> (r: u8)
    ensures
        DAMAGE_MIN <= r <= DAMAGE_MAX,
{
    roll_in_range(DAMAGE_MIN, DAMAGE_MAX)
}

pub open spec fn spec_abs(x: int) -> int {
    if x < 0 {
        -x
    } else {
        x
    }
}

/// Strictly within melee reach: squared distance below `MELEE_RANGE` squared.
pub open spec fn spec_in_melee_range(a: Position, b: Position) -> bool {
    let dx = a.x - b.x;
    let dy = a.y - b.y;
    dx * dx + dy * dy < MELEE_RANGE * MELEE_RANGE
}

/// Strictly beyond melee reach (at exactly the threshold, neither holds).
pub open spec fn spec_beyond_melee_range(a: Position, b: Position) -> bool {
    let dx = a.x - b.x;
    let dy = a.y - b.y;
    dx * dx + dy * dy > MELEE_RANGE * MELEE_RANGE
}

fn abs_i64(x: i64) -> (r: i64)
    requires
        x > i64::MIN,
    ensures
        r == spec_abs(x as int),
{
    if x < 0 {
        -x
    } else {
        x
    }
}

proof fn lemma_square_mono(a: int, b: int)
    requires
        0 <= a <= b,
    ensures
        a * a <= b * b,
{
    assert(a * a <= b * b) by (nonlinear_arith)
        requires
            0 <= a <= b,
    ;
}

proof fn lemma_abs_square(x: int)
    ensures
        spec_abs(x) * spec_abs(x) == x * x,
        x * x >= 0,
{
    assert(spec_abs(x) * spec_abs(x) == x * x && x * x >= 0) by (nonlinear_arith)
        requires
            spec_abs(x) == if x < 0 {
                -x
            } else {
                x
            },
    ;
}

pub fn in_melee_range(a: Position, b: Position) -> (r: bool)
    ensures
        r == spec_in_melee_range(a, b),
{
    let dx: i64 = a.x as i64 - b.x as i64;
    let dy: i64 = a.y as i64 - b.y as i64;
    let adx: i64 = abs_i64(dx);
    let ady: i64 = abs_i64(dy);
    proof {
        lemma_abs_square(dx as int);
        lemma_abs_square(dy as int);
    }
    if adx >= 700 || ady >= 700 {
        proof {
            if adx >= 700 {
                lemma_square_mono(700, adx as int);
            } else {
                lemma_square_mono(700, ady as int);
            }
        }
        false
    } else {
        proof {
            lemma_square_mono(adx as int, 699);
            lemma_square_mono(ady as int, 699);
        }
        dx * dx + dy * dy < 490000
    }
}

pub fn beyond_melee_range(a: Position, b: Position) -> (r: bool)
    ensures
        r == spec_beyond_melee_range(a, b),
{
    let dx: i64 = a.x as i64 - b.x as i64;
    let dy: i64 = a.y as i64 - b.y as i64;
    let adx: i64 = abs_i64(dx);
    let ady: i64 = abs_i64(dy);
    proof {
        lemma_abs_square(dx as int);
        lemma_abs_square(dy as int);
    }
    if adx >= 701 || ady >= 701 {
        proof {
            if adx >= 701 {
                lemma_square_mono(701, adx as int);
            } else {
                lemma_square_mono(701, ady as int);
            }
        }
        true
    } else {
        proof {
            lemma_square_mono(adx as int, 700);
            lemma_square_mono(ady as int, 700);
        }
        dx * dx + dy * dy > 490000
    }
}

/// Whether an actor facing `dir` at `from` points toward `to`: for `Up` and
/// `Down` the Y ordinates are compared, for `Left` and `Right` the X
/// ordinates, strictly — there is no diagonal tolerance.
pub open spec fn spec_facing(dir: crate::sprite::MoveDir, from: Position, to: Position) -> bool {
    match dir {
        crate::sprite::MoveDir::Up => to.y > from.y,
        crate::sprite::MoveDir::Left => to.x < from.x,
        crate::sprite::MoveDir::Down => to.y < from.y,
        crate::sprite::MoveDir::Right => to.x > from.x,
    }
}

pub fn facing_toward(dir: crate::sprite::MoveDir, from: Position, to: Position) -> (r: bool)
    ensures
        r == spec_facing(dir, from, to),
{
    match dir {
        crate::sprite::MoveDir::Up => to.y > from.y,
        crate::sprite::MoveDir::Left => to.x < from.x,
        crate::sprite::MoveDir::Down => to.y < from.y,
        crate::sprite::MoveDir::Right => to.x > from.x,
    }
}

/// How one damage application ends.
#[derive(Clone, Copy, Debug, PartialEq, Eq, Structural)]
pub enum DamageOutcome {
    /// The target was already dead; the event is silently dropped.
    Ignored,
    /// Damage was applied and the target is still alive.
    Survived,
    /// Damage was applied and brought the target to zero or below.
    Died,
}

/// What a single damage event leaves of a health value: damage is applied
/// only while current health is strictly positive.
pub open spec fn spec_apply_damage(h: Health, amount: u8) -> Health {
    if h.0 > 0 {
        Health((h.0 - amount) as i8, h.1)
    } else {
        h
    }
}

/// Apply one hit or bite to a target's health.
///
/// A target already at zero or below is left untouched — the death trigger
/// fires at most once per actor along the damage path, and health never
/// moves again after it has.
pub fn apply_damage(h: &mut Health, amount: u8) -> (out: DamageOutcome)
    requires
        DAMAGE_MIN <= amount <= DAMAGE_MAX,
    ensures
        *final(h) == spec_apply_damage(*old(h), amount),
        old(h).0 <= 0 ==> *final(h) == *old(h) && out == DamageOutcome::Ignored,
        out == DamageOutcome::Died <==> old(h).0 > 0 && old(h).0 - amount <= 0,
        out == DamageOutcome::Survived <==> old(h).0 > 0 && old(h).0 - amount > 0,
        final(h).1 == old(h).1,
        old(h).0 > 0 ==> final(h).0 == old(h).0 - amount,
{
    if h.0 > 0 {
        h.0 = h.0 - amount as i8;
        if h.0 <= 0 {
            DamageOutcome::Died
        } else {
            DamageOutcome::Survived
        }
    } else {
        DamageOutcome::Ignored
    }
}

/// What a sequence of damage events leaves of a health value, applied in
/// order.
pub open spec fn spec_apply_damage_seq(h: Health, amounts: Seq<u8>) -> Health
    decreases amounts.len(),
{
    if amounts.len() == 0 {
        h
    } else {
        spec_apply_damage_seq(spec_apply_damage(h, amounts[0]), amounts.drop_first())
    }
}

pub proof fn lemma_apply_damage_seq_push(h: Health, amounts: Seq<u8>, x: u8)
    ensures
        spec_apply_damage_seq(h, amounts.push(x)) == spec_apply_damage(
            spec_apply_damage_seq(h, amounts),
            x,
        ),
    decreases amounts.len(),
{
    let p = amounts.push(x);
    assert(p.len() == amounts.len() + 1);
    assert(spec_apply_damage_seq(h, p) == spec_apply_damage_seq(
        spec_apply_damage(h, p[0]),
        p.drop_first(),
    ));
    if amounts.len() == 0 {
        assert(p[0] == x);
        assert(p.drop_first() =~= Seq::<u8>::empty());
        assert(spec_apply_damage_seq(spec_apply_damage(h, x), p.drop_first())
            == spec_apply_damage(h, x));
        assert(spec_apply_damage_seq(h, amounts) == h);
    } else {
        assert(p[0] == amounts[0]);
        assert(p.drop_first() =~= amounts.drop_first().push(x));
        lemma_apply_damage_seq_push(spec_apply_damage(h, amounts[0]), amounts.drop_first(), x);
        assert(spec_apply_damage_seq(h, amounts) == spec_apply_damage_seq(
            spec_apply_damage(h, amounts[0]),
            amounts.drop_first(),
        ));
    }
}

/// Once health has reached zero or below, no sequence of damage events moves
/// it again: death is idempotent along the damage-application path.
pub proof fn lemma_dead_health_stays(h: Health, amounts: Seq<u8>)
    requires
        h.0 <= 0,
    ensures
        spec_apply_damage_seq(h, amounts) == h,
    decreases amounts.len(),
{
    if amounts.len() > 0 {
        lemma_dead_health_stays(h, amounts.drop_first());
    }
}

/// Apply every queued bite to the player's health, in order; each one lands
/// only while the player is still alive. Reports whether the player died on
/// one of them — true exactly when the player was alive before and is at
/// zero or below after.
pub fn handle_player_damage(h: &mut Health, bites: &Vec<AxolBiteEvent>) -> (died: bool)
    requires
        forall|j: int|
            0 <= j < bites@.len() ==> DAMAGE_MIN <= (#[trigger] bites@[j]).amount <= DAMAGE_MAX,
    ensures
        *final(h) == spec_apply_damage_seq(
            *old(h),
            bites@.map_values(|e: AxolBiteEvent| e.amount),
        ),
        died <==> (old(h).0 > 0 && final(h).0 <= 0),
        final(h).1 == old(h).1,
{
    let ghost amounts = bites@.map_values(|e: AxolBiteEvent| e.amount);
    let ghost h0 = *h;
    let mut k: usize = 0;
    let mut died: bool = false;
    while k < bites.len()
        invariant
            k <= bites@.len(),
            forall|j: int|
                0 <= j < bites@.len() ==> DAMAGE_MIN <= (#[trigger] bites@[j]).amount
                    <= DAMAGE_MAX,
            amounts == bites@.map_values(|e: AxolBiteEvent| e.amount),
            amounts.len() == bites@.len(),
            h0 == *old(h),
            *h == spec_apply_damage_seq(h0, amounts.take(k as int)),
            h0.0 <= 0 ==> *h == h0,
            died <==> (h0.0 > 0 && h.0 <= 0),
            h.1 == h0.1,
        decreases bites@.len() - k,
    {
        let amt: u8 = bites[k].amount;
        let out = apply_damage(h, amt);
        if matches!(out, DamageOutcome::Died) {
            died = true;
        }
        proof {
            assert(amounts.take(k + 1) =~= amounts.take(k as int).push(amt));
            lemma_apply_damage_seq_push(h0, amounts.take(k as int), amt);
        }
        k = k + 1;
    }
    proof {
        assert(amounts.take(bites@.len() as int) =~= amounts);
    }
    died
}

/// One enemy's part in a sword swing: either a hit with a damage roll, or a
/// miss (in range but not faced, or out of range).
#[derive(Clone, Copy, Debug, PartialEq, Eq, Structural)]
pub enum SwingOutcome {
    Hit(u8),
    Miss,
}

/// A swing connects with a target exactly when the target is within melee
/// reach of the player and the player faces it.
pub open spec fn spec_swing_connects(
    player_pos: Position,
    player_dir: MoveDir,
    target: Position,
) -> bool {
    spec_in_melee_range(target, player_pos) && spec_facing(player_dir, player_pos, target)
}

/// Resolve one sword swing against every enemy, each evaluated
/// independently: a hit with a fresh damage roll in
/// `DAMAGE_MIN..=DAMAGE_MAX` for each enemy the swing connects with, a miss
/// for every other.
pub fn check_player_attack(
    player_pos: Position,
    player_dir: MoveDir,
    axols: &Vec<Axol>,
) -> (outs: Vec<SwingOutcome>)
    ensures
        outs@.len() == axols@.len(),
        forall|i: int|
            0 <= i < axols@.len() ==> ((#[trigger] outs@[i]) is Hit <==> spec_swing_connects(
                player_pos,
                player_dir,
                axols@[i].actor.pos,
            )),
        forall|i: int|
            0 <= i < axols@.len() ==> ((#[trigger] outs@[i]) matches SwingOutcome::Hit(amt)
                ==> DAMAGE_MIN <= amt <= DAMAGE_MAX),
{
    let mut outs: Vec<SwingOutcome> = Vec::new();
    let mut i: usize = 0;
    while i < axols.len()
        invariant
            i <= axols@.len(),
            outs@.len() == i,
            forall|k: int|
                0 <= k < i ==> ((#[trigger] outs@[k]) is Hit <==> spec_swing_connects(
                    player_pos,
                    player_dir,
                    axols@[k].actor.pos,
                )),
            forall|k: int|
                0 <= k < i ==> ((#[trigger] outs@[k]) matches SwingOutcome::Hit(amt)
                    ==> DAMAGE_MIN <= amt <= DAMAGE_MAX),
        decreases axols@.len() - i,
    {
        let target = axols[i].actor.pos;
        if in_melee_range(target, player_pos) && facing_toward(player_dir, player_pos, target) {
            let dmg: u8 = roll_damage();
            outs.push(SwingOutcome::Hit(dmg));
        } else {
            outs.push(SwingOutcome::Miss);
        }
        i = i + 1;
    }
    outs
}

/// How many entries of a swing resolution are hits.
pub open spec fn spec_count_hits(outs: Seq<SwingOutcome>) -> int
    decreases outs.len(),
{
    if outs.len() == 0 {
        0
    } else {
        spec_count_hits(outs.drop_last()) + if outs.last() is Hit {
            1int
        } else {
            0int
        }
    }
}

/// Turn a swing resolution into targeted hit events (the index of each hit
/// enemy with its damage roll, in index order) and the count of misses.
pub fn collect_sword_events(outs: &Vec<SwingOutcome>) -> (r: (Vec<SwordHitEvent>, usize))
    ensures
        r.0@.len() == spec_count_hits(outs@),
        r.0@.len() + r.1 == outs@.len(),
        forall|j: int|
            0 <= j < r.0@.len() ==> (#[trigger] r.0@[j]).target < outs@.len()
                && outs@[r.0@[j].target as int] == SwingOutcome::Hit(r.0@[j].amount),
        forall|j1: int, j2: int|
            0 <= j1 < j2 < r.0@.len() ==> (#[trigger] r.0@[j1]).target
                < (#[trigger] r.0@[j2]).target,
{
    let mut hits: Vec<SwordHitEvent> = Vec::new();
    let mut misses: usize = 0;
    let mut i: usize = 0;
    while i < outs.len()
        invariant
            i <= outs@.len(),
            hits@.len() == spec_count_hits(outs@.take(i as int)),
            hits@.len() + misses == i,
            forall|j: int|
                0 <= j < hits@.len() ==> (#[trigger] hits@[j]).target < i
                    && outs@[hits@[j].target as int] == SwingOutcome::Hit(hits@[j].amount),
            forall|j1: int, j2: int|
                0 <= j1 < j2 < hits@.len() ==> (#[trigger] hits@[j1]).target
                    < (#[trigger] hits@[j2]).target,
        decreases outs@.len() - i,
    {
        proof {
            assert(outs@.take(i + 1).drop_last() =~= outs@.take(i as int));
            assert(outs@.take(i + 1).last() == outs@[i as int]);
        }
        match outs[i] {
            SwingOutcome::Hit(amt) => {
                hits.push(SwordHitEvent { target: i, amount: amt });
            },
            SwingOutcome::Miss => {
                misses = misses + 1;
            },
        }
        i = i + 1;
    }
    proof {
        assert(outs@.take(outs@.len() as int) =~= outs@);
    }
    (hits, misses)
}

/// The cooldown, liveness and range gate of a bite attempt: the enemy's
/// cooldown completed on this very tick, both combatants are alive, and the
/// player is within melee reach.
pub open spec fn spec_bite_ready(
    a: Axol,
    player_pos: Position,
    player_health: Health,
    delta_ms: u32,
) -> bool {
    &&& spec_in_melee_range(a.actor.pos, player_pos)
    &&& a.actor.health.0 > 0
    &&& player_health.0 > 0
    &&& a.cooldown.0.spec_tick(delta_ms).spec_just_finished()
}

/// A bite lands when all of [`spec_bite_ready`] holds and the enemy also
/// faces the player.
pub open spec fn spec_bite_lands(
    a: Axol,
    player_pos: Position,
    player_health: Health,
    delta_ms: u32,
) -> bool {
    spec_bite_ready(a, player_pos, player_health, delta_ms) && spec_facing(
        a.actor.move_dir,
        a.actor.pos,
        player_pos,
    )
}

/// How many enemies of a list land a bite this tick.
pub open spec fn spec_count_bites(
    s: Seq<Axol>,
    player_pos: Position,
    player_health: Health,
    delta_ms: u32,
) -> int
    decreases s.len(),
{
    if s.len() == 0 {
        0
    } else {
        spec_count_bites(s.drop_last(), player_pos, player_health, delta_ms) + if spec_bite_lands(
            s.last(),
            player_pos,
            player_health,
            delta_ms,
        ) {
            1int
        } else {
            0int
        }
    }
}

/// Advance every enemy's bite cooldown by this tick's elapsed time and
/// resolve bite attempts.
///
/// An enemy bites only when its cooldown completed on this very tick — one
/// attempt per cooldown period, however short the frames — and both it and
/// the player are alive and within melee reach. If it also faces the player,
/// a bite event with a fresh damage roll is emitted and the enemy switches
/// to its attack animation (the injured variant when below full health);
/// otherwise nothing happens beyond the cooldown advancing.
pub fn check_axol_attack(
    axols: &mut Vec<Axol>,
    player_pos: Position,
    player_health: Health,
    delta_ms: u32,
) -> (bites: Vec<AxolBiteEvent>)
    requires
        forall|k: int| 0 <= k < old(axols)@.len() ==> (#[trigger] old(axols)@[k]).wf(),
    ensures
        final(axols)@.len() == old(axols)@.len(),
        forall|k: int|
            0 <= k < old(axols)@.len() ==> (#[trigger] final(axols)@[k]).cooldown.0 == old(
                axols,
            )@[k].cooldown.0.spec_tick(delta_ms),
        forall|k: int|
            0 <= k < old(axols)@.len() ==> (spec_bite_lands(
                old(axols)@[k],
                player_pos,
                player_health,
                delta_ms,
            ) ==> (#[trigger] final(axols)@[k]).actor == (Actor {
                anim_state: if old(axols)@[k].actor.health.spec_injured() {
                    AnimState::AttackInjured
                } else {
                    AnimState::Attack
                },
                ..old(axols)@[k].actor
            })),
        forall|k: int|
            0 <= k < old(axols)@.len() ==> (!spec_bite_lands(
                old(axols)@[k],
                player_pos,
                player_health,
                delta_ms,
            ) ==> (#[trigger] final(axols)@[k]).actor == old(axols)@[k].actor),
        forall|k: int|
            0 <= k < old(axols)@.len() ==> (#[trigger] final(axols)@[k]).despawn_grace == old(
                axols,
            )@[k].despawn_grace,
        forall|k: int| 0 <= k < old(axols)@.len() ==> (#[trigger] final(axols)@[k]).wf(),
        bites@.len() == spec_count_bites(old(axols)@, player_pos, player_health, delta_ms),
        forall|j: int|
            0 <= j < bites@.len() ==> DAMAGE_MIN <= (#[trigger] bites@[j]).amount <= DAMAGE_MAX,
{
    let mut bites: Vec<AxolBiteEvent> = Vec::new();
    let mut i: usize = 0;
    while i < axols.len()
        invariant
            i <= axols@.len(),
            axols@.len() == old(axols)@.len(),
            forall|k: int| 0 <= k < old(axols)@.len() ==> (#[trigger] old(axols)@[k]).wf(),
            forall|k: int| i <= k < axols@.len() ==> (#[trigger] axols@[k]) == old(axols)@[k],
            forall|k: int|
                0 <= k < i ==> (#[trigger] axols@[k]).cooldown.0 == old(
                    axols,
                )@[k].cooldown.0.spec_tick(delta_ms),
            forall|k: int|
                0 <= k < i ==> (spec_bite_lands(
                    old(axols)@[k],
                    player_pos,
                    player_health,
                    delta_ms,
                ) ==> (#[trigger] axols@[k]).actor == (Actor {
                    anim_state: if old(axols)@[k].actor.health.spec_injured() {
                        AnimState::AttackInjured
                    } else {
                        AnimState::Attack
                    },
                    ..old(axols)@[k].actor
                })),
            forall|k: int|
                0 <= k < i ==> (!spec_bite_lands(
                    old(axols)@[k],
                    player_pos,
                    player_health,
                    delta_ms,
                ) ==> (#[trigger] axols@[k]).actor == old(axols)@[k].actor),
            forall|k: int|
                0 <= k < i ==> (#[trigger] axols@[k]).despawn_grace == old(
                    axols,
                )@[k].despawn_grace,
            forall|k: int| 0 <= k < i ==> (#[trigger] axols@[k]).wf(),
            bites@.len() == spec_count_bites(
                old(axols)@.take(i as int),
                player_pos,
                player_health,
                delta_ms,
            ),
            forall|j: int|
                0 <= j < bites@.len() ==> DAMAGE_MIN <= (#[trigger] bites@[j]).amount
                    <= DAMAGE_MAX,
        decreases axols@.len() - i,
    {
        proof {
            assert(old(axols)@.take(i + 1).drop_last() =~= old(axols)@.take(i as int));
            assert(old(axols)@.take(i + 1).last() == old(axols)@[i as int]);
        }
        let mut a: Axol = axols[i];
        a.cooldown.0.tick(delta_ms);
        let in_range: bool = in_melee_range(a.actor.pos, player_pos);
        if in_range && a.actor.health.0 > 0 && player_health.0 > 0
            && a.cooldown.0.just_finished() {
            if facing_toward(a.actor.move_dir, a.actor.pos, player_pos) {
                let dmg: u8 = roll_damage();
                bites.push(AxolBiteEvent { amount: dmg });
                if a.actor.health.injured() {
                    a.actor.anim_state = AnimState::AttackInjured;
                } else {
                    a.actor.anim_state = AnimState::Attack;
                }
            }
        }
        axols.set(i, a);
        i = i + 1;
    }
    proof {
        assert(old(axols)@.take(axols@.len() as int) =~= old(axols)@);
    }
    bites
}

/// The chase decision: an alive enemy beyond melee reach of an alive player
/// walks toward the player.
pub open spec fn spec_wants_walk(a: Axol, player_pos: Position, player_health: Health) -> bool {
    a.actor.health.0 > 0 && player_health.0 > 0 && spec_beyond_melee_range(
        a.actor.pos,
        player_pos,
    )
}

/// Which way a chasing enemy turns: along the axis of the larger distance,
/// toward the player; with both distances equal, it keeps its facing.
pub open spec fn spec_chase_dir(a_pos: Position, p_pos: Position, cur: MoveDir) -> MoveDir {
    let dx = a_pos.x - p_pos.x;
    let dy = a_pos.y - p_pos.y;
    if spec_abs(dx) > spec_abs(dy) && dx > 0 {
        MoveDir::Left
    } else if spec_abs(dx) > spec_abs(dy) && dx < 0 {
        MoveDir::Right
    } else if spec_abs(dy) > spec_abs(dx) && dy > 0 {
        MoveDir::Down
    } else if spec_abs(dy) > spec_abs(dx) && dy < 0 {
        MoveDir::Up
    } else {
        cur
    }
}

fn chase_dir(a_pos: Position, p_pos: Position, cur: MoveDir) -> (d: MoveDir)
    ensures
        d == spec_chase_dir(a_pos, p_pos, cur),
{
    let dx: i64 = a_pos.x as i64 - p_pos.x as i64;
    let dy: i64 = a_pos.y as i64 - p_pos.y as i64;
    let adx: i64 = abs_i64(dx);
    let ady: i64 = abs_i64(dy);
    if adx > ady && dx > 0 {
        MoveDir::Left
    } else if adx > ady && dx < 0 {
        MoveDir::Right
    } else if ady > adx && dy > 0 {
        MoveDir::Down
    } else if ady > adx && dy < 0 {
        MoveDir::Up
    } else {
        cur
    }
}

/// How many enemies of a list want to walk this tick.
pub open spec fn spec_count_walks(s: Seq<Axol>, player_pos: Position, player_health: Health) -> int
    decreases s.len(),
{
    if s.len() == 0 {
        0
    } else {
        spec_count_walks(s.drop_last(), player_pos, player_health) + if spec_wants_walk(
            s.last(),
            player_pos,
            player_health,
        ) {
            1int
        } else {
            0int
        }
    }
}

/// One enemy after the whole walk phase of a tick: a chasing enemy turns
/// toward the player, switches to its walking animation, and takes one
/// walking step through the walkability gate; any other enemy is untouched.
pub open spec fn spec_walked_axol(
    a: Axol,
    player_pos: Position,
    player_health: Health,
    nw: LevelNoWalk,
) -> Axol {
    if spec_wants_walk(a, player_pos, player_health) {
        let nd = spec_chase_dir(a.actor.pos, player_pos, a.actor.move_dir);
        let dest = spec_dest(a.actor.pos, nd, WALK_SPEED);
        let pos = if spec_walkable(nw, dest) {
            dest
        } else {
            a.actor.pos
        };
        Axol { actor: Actor { move_dir: nd, anim_state: AnimState::Walk, pos, ..a.actor }, ..a }
    } else {
        a
    }
}

/// The enemy list after the walk phase, element by element.
pub open spec fn spec_walk_phase(
    s: Seq<Axol>,
    player_pos: Position,
    player_health: Health,
    nw: LevelNoWalk,
) -> Seq<Axol> {
    Seq::new(s.len(), |i: int| spec_walked_axol(s[i], player_pos, player_health, nw))
}

/// One enemy after the bite phase of a tick: its cooldown advanced by the
/// elapsed time, and, if its bite lands, its attack animation selected.
pub open spec fn spec_bitten_axol(
    a: Axol,
    player_pos: Position,
    player_health: Health,
    delta_ms: u32,
) -> Axol {
    let ticked = Axol { cooldown: AttackCooldown(a.cooldown.0.spec_tick(delta_ms)), ..a };
    if spec_bite_lands(a, player_pos, player_health, delta_ms) {
        Axol {
            actor: Actor {
                anim_state: if a.actor.health.spec_injured() {
                    AnimState::AttackInjured
                } else {
                    AnimState::Attack
                },
                ..a.actor
            },
            ..ticked
        }
    } else {
        ticked
    }
}

/// A list standing in the per-index relation that [`check_axol_attack`]
/// guarantees to its input is exactly the bite phase of that input.
pub proof fn lemma_bite_phase_pointwise(
    pre: Seq<Axol>,
    post: Seq<Axol>,
    player_pos: Position,
    player_health: Health,
    delta_ms: u32,
)
    requires
        post.len() == pre.len(),
        forall|k: int|
            0 <= k < pre.len() ==> (#[trigger] post[k]).cooldown.0 == pre[k].cooldown.0.spec_tick(
                delta_ms,
            ),
        forall|k: int|
            0 <= k < pre.len() ==> (spec_bite_lands(pre[k], player_pos, player_health, delta_ms)
                ==> (#[trigger] post[k]).actor == (Actor {
                anim_state: if pre[k].actor.health.spec_injured() {
                    AnimState::AttackInjured
                } else {
                    AnimState::Attack
                },
                ..pre[k].actor
            })),
        forall|k: int|
            0 <= k < pre.len() ==> (!spec_bite_lands(pre[k], player_pos, player_health, delta_ms)
                ==> (#[trigger] post[k]).actor == pre[k].actor),
        forall|k: int|
            0 <= k < pre.len() ==> (#[trigger] post[k]).despawn_grace == pre[k].despawn_grace,
    ensures
        post == spec_bite_phase(pre, player_pos, player_health, delta_ms),
{
    assert forall|k: int| 0 <= k < pre.len() implies (#[trigger] post[k]) == spec_bitten_axol(
        pre[k],
        player_pos,
        player_health,
        delta_ms,
    ) by {
        assert(post[k].cooldown == AttackCooldown(post[k].cooldown.0));
        if spec_bite_lands(pre[k], player_pos, player_health, delta_ms) {
        } else {
        }
    }
    assert(post =~= spec_bite_phase(pre, player_pos, player_health, delta_ms));
}

/// The enemy list after the bite phase, element by element.
pub open spec fn spec_bite_phase(
    s: Seq<Axol>,
    player_pos: Position,
    player_health: Health,
    delta_ms: u32,
) -> Seq<Axol> {
    Seq::new(s.len(), |i: int| spec_bitten_axol(s[i], player_pos, player_health, delta_ms))
}

/// Turn every alive enemy beyond melee reach toward the player and switch it
/// to its walking animation, emitting one walk intent per such enemy (in
/// index order, with the enemy's index as the walker id).
pub fn walk_to_player(axols: &mut Vec<Axol>, player_pos: Position, player_health: Health) -> (
    walks: Vec<WalkEvent>)
    requires
        forall|k: int| 0 <= k < old(axols)@.len() ==> (#[trigger] old(axols)@[k]).wf(),
    ensures
        final(axols)@.len() == old(axols)@.len(),
        forall|k: int|
            0 <= k < old(axols)@.len() ==> (spec_wants_walk(old(axols)@[k], player_pos,
            player_health) ==> (#[trigger] final(axols)@[k]) == (Axol {
                actor: Actor {
                    move_dir: spec_chase_dir(
                        old(axols)@[k].actor.pos,
                        player_pos,
                        old(axols)@[k].actor.move_dir,
                    ),
                    anim_state: AnimState::Walk,
                    ..old(axols)@[k].actor
                },
                ..old(axols)@[k]
            })),
        forall|k: int|
            0 <= k < old(axols)@.len() ==> (!spec_wants_walk(old(axols)@[k], player_pos,
            player_health) ==> (#[trigger] final(axols)@[k]) == old(axols)@[k]),
        forall|k: int| 0 <= k < old(axols)@.len() ==> (#[trigger] final(axols)@[k]).wf(),
        walks@.len() == spec_count_walks(old(axols)@, player_pos, player_health),
        forall|j: int|
            0 <= j < walks@.len() ==> (#[trigger] walks@[j]).entity < old(axols)@.len()
                && spec_wants_walk(old(axols)@[walks@[j].entity as int], player_pos, player_health)
                && walks@[j].direction == spec_chase_dir(
                old(axols)@[walks@[j].entity as int].actor.pos,
                player_pos,
                old(axols)@[walks@[j].entity as int].actor.move_dir,
            ),
        forall|j1: int, j2: int|
            0 <= j1 < j2 < walks@.len() ==> (#[trigger] walks@[j1]).entity
                < (#[trigger] walks@[j2]).entity,
{
    let mut walks: Vec<WalkEvent> = Vec::new();
    let mut i: usize = 0;
    while i < axols.len()
        invariant
            i <= axols@.len(),
            axols@.len() == old(axols)@.len(),
            forall|k: int| 0 <= k < old(axols)@.len() ==> (#[trigger] old(axols)@[k]).wf(),
            forall|k: int| i <= k < axols@.len() ==> (#[trigger] axols@[k]) == old(axols)@[k],
            forall|k: int|
                0 <= k < i ==> (spec_wants_walk(old(axols)@[k], player_pos, player_health)
                    ==> (#[trigger] axols@[k]) == (Axol {
                    actor: Actor {
                        move_dir: spec_chase_dir(
                            old(axols)@[k].actor.pos,
                            player_pos,
                            old(axols)@[k].actor.move_dir,
                        ),
                        anim_state: AnimState::Walk,
                        ..old(axols)@[k].actor
                    },
                    ..old(axols)@[k]
                })),
            forall|k: int|
                0 <= k < i ==> (!spec_wants_walk(old(axols)@[k], player_pos, player_health)
                    ==> (#[trigger] axols@[k]) == old(axols)@[k]),
            forall|k: int| 0 <= k < i ==> (#[trigger] axols@[k]).wf(),
            walks@.len() == spec_count_walks(old(axols)@.take(i as int), player_pos,
            player_health),
            forall|j: int|
                0 <= j < walks@.len() ==> (#[trigger] walks@[j]).entity < i && spec_wants_walk(
                    old(axols)@[walks@[j].entity as int],
                    player_pos,
                    player_health,
                ) && walks@[j].direction == spec_chase_dir(
                    old(axols)@[walks@[j].entity as int].actor.pos,
                    player_pos,
                    old(axols)@[walks@[j].entity as int].actor.move_dir,
                ),
            forall|j1: int, j2: int|
                0 <= j1 < j2 < walks@.len() ==> (#[trigger] walks@[j1]).entity
                    < (#[trigger] walks@[j2]).entity,
        decreases axols@.len() - i,
    {
        proof {
            assert(old(axols)@.take(i + 1).drop_last() =~= old(axols)@.take(i as int));
            assert(old(axols)@.take(i + 1).last() == old(axols)@[i as int]);
        }
        let mut a: Axol = axols[i];
        if a.actor.health.0 > 0 && player_health.0 > 0
            && beyond_melee_range(a.actor.pos, player_pos) {
            let nd: MoveDir = chase_dir(a.actor.pos, player_pos, a.actor.move_dir);
            a.actor.move_dir = nd;
            a.actor.anim_state = AnimState::Walk;
            walks.push(WalkEvent { direction: nd, entity: i });
            axols.set(i, a);
        }
        i = i + 1;
    }
    proof {
        assert(old(axols)@.take(axols@.len() as int) =~= old(axols)@);
    }
    walks
}

/// The despawn-grace timer as armed at the moment an enemy dies.
pub open spec fn spec_grace_timer() -> Timer {
    Timer {
        duration_ms: DESPAWN_GRACE_MS,
        elapsed_ms: 0u32,
        repeating: false,
        fired_now: false,
        fired_ever: false,
    }
}

/// What one targeted sword hit leaves of the enemy list, and whether it was
/// a killing blow. Damage lands only while the target is alive; a killing
/// blow also switches the target to its death animation at frame 0 and arms
/// its despawn-grace timer.
pub open spec fn spec_apply_hit(s: Seq<Axol>, h: SwordHitEvent) -> (Seq<Axol>, int) {
    let a = s[h.target as int];
    if a.actor.health.0 > 0 {
        let hp = a.actor.health.0 - h.amount;
        if hp <= 0 {
            (
                s.update(
                    h.target as int,
                    Axol {
                        actor: Actor {
                            health: Health(hp as i8, a.actor.health.1),
                            anim_state: AnimState::Dead,
                            anim_frame: AnimFrame(0),
                            ..a.actor
                        },
                        despawn_grace: Some(spec_grace_timer()),
                        ..a
                    },
                ),
                1,
            )
        } else {
            (
                s.update(
                    h.target as int,
                    Axol {
                        actor: Actor { health: Health(hp as i8, a.actor.health.1), ..a.actor },
                        ..a
                    },
                ),
                0,
            )
        }
    } else {
        (s, 0)
    }
}

/// What a sequence of targeted sword hits leaves of the enemy list, applied
/// in order, with the total number of killing blows.
pub open spec fn spec_apply_hits(s: Seq<Axol>, hits: Seq<SwordHitEvent>) -> (Seq<Axol>, int)
    decreases hits.len(),
{
    if hits.len() == 0 {
        (s, 0)
    } else {
        let prev = spec_apply_hits(s, hits.drop_last());
        let step = spec_apply_hit(prev.0, hits.last());
        (step.0, prev.1 + step.1)
    }
}

/// Applying hits never changes the length of the enemy list.
pub proof fn lemma_apply_hits_len(s: Seq<Axol>, hits: Seq<SwordHitEvent>)
    requires
        forall|j: int| 0 <= j < hits.len() ==> (#[trigger] hits[j]).target < s.len(),
    ensures
        spec_apply_hits(s, hits).0.len() == s.len(),
    decreases hits.len(),
{
    if hits.len() > 0 {
        assert(forall|j: int|
            0 <= j < hits.drop_last().len() ==> (#[trigger] hits.drop_last()[j]).target
                < s.len());
        lemma_apply_hits_len(s, hits.drop_last());
    }
}

/// Death is idempotent for enemies too: an enemy already at zero or below
/// is left entirely untouched by any sequence of sword hits — no damage,
/// no second death, no score along its row.
pub proof fn lemma_hits_leave_dead_axol(s: Seq<Axol>, hits: Seq<SwordHitEvent>, k: int)
    requires
        0 <= k < s.len(),
        s[k].actor.health.0 <= 0,
        forall|j: int| 0 <= j < hits.len() ==> (#[trigger] hits[j]).target < s.len(),
    ensures
        spec_apply_hits(s, hits).0[k] == s[k],
    decreases hits.len(),
{
    if hits.len() > 0 {
        assert(forall|j: int|
            0 <= j < hits.drop_last().len() ==> (#[trigger] hits.drop_last()[j]).target
                < s.len());
        lemma_hits_leave_dead_axol(s, hits.drop_last(), k);
        lemma_apply_hits_len(s, hits.drop_last());
        let prev = spec_apply_hits(s, hits.drop_last()).0;
        let h = hits.last();
        if h.target == k {
            assert(prev[k].actor.health.0 <= 0);
        }
    }
}

/// Apply every targeted sword hit of this tick to the enemy list, in order.
///
/// Damage against an already-dead enemy is silently dropped. Each killing
/// blow switches the enemy to its death animation at frame 0, arms its
/// despawn-grace timer, and awards the fixed kill bonus — the score changes
/// by exactly `KILL_BONUS` per enemy death and by nothing else.
pub fn handle_axol_damage(
    axols: &mut Vec<Axol>,
    score: &mut Score,
    hits: &Vec<SwordHitEvent>,
) -> (deaths: usize)
    requires
        forall|j: int| 0 <= j < hits@.len() ==> (#[trigger] hits@[j]).target < old(axols)@.len(),
        forall|j: int|
            0 <= j < hits@.len() ==> DAMAGE_MIN <= (#[trigger] hits@[j]).amount <= DAMAGE_MAX,
        old(score).0 + KILL_BONUS * hits@.len() <= usize::MAX,
        forall|k: int| 0 <= k < old(axols)@.len() ==> (#[trigger] old(axols)@[k]).wf(),
    ensures
        final(axols)@ == spec_apply_hits(old(axols)@, hits@).0,
        deaths == spec_apply_hits(old(axols)@, hits@).1,
        final(score).0 == old(score).0 + KILL_BONUS * deaths,
        deaths <= hits@.len(),
        final(axols)@.len() == old(axols)@.len(),
        forall|k: int| 0 <= k < final(axols)@.len() ==> (#[trigger] final(axols)@[k]).wf(),
        forall|k: int|
            0 <= k < final(axols)@.len() ==> (#[trigger] final(axols)@[k]).actor.pos == old(
                axols,
            )@[k].actor.pos,
        forall|k: int|
            0 <= k < final(axols)@.len() ==> (#[trigger] final(axols)@[k]).cooldown == old(
                axols,
            )@[k].cooldown,
{
    let mut k: usize = 0;
    let mut deaths: usize = 0;
    while k < hits.len()
        invariant
            k <= hits@.len(),
            deaths <= k,
            forall|j: int|
                0 <= j < axols@.len() ==> (#[trigger] axols@[j]).actor.pos == old(
                    axols,
                )@[j].actor.pos,
            forall|j: int|
                0 <= j < axols@.len() ==> (#[trigger] axols@[j]).cooldown == old(
                    axols,
                )@[j].cooldown,
            forall|j: int|
                0 <= j < hits@.len() ==> (#[trigger] hits@[j]).target < old(axols)@.len(),
            forall|j: int|
                0 <= j < hits@.len() ==> DAMAGE_MIN <= (#[trigger] hits@[j]).amount <= DAMAGE_MAX,
            old(score).0 + KILL_BONUS * hits@.len() <= usize::MAX,
            axols@ == spec_apply_hits(old(axols)@, hits@.take(k as int)).0,
            deaths == spec_apply_hits(old(axols)@, hits@.take(k as int)).1,
            score.0 == old(score).0 + KILL_BONUS * deaths,
            axols@.len() == old(axols)@.len(),
            forall|j: int| 0 <= j < axols@.len() ==> (#[trigger] axols@[j]).wf(),
        decreases hits@.len() - k,
    {
        proof {
            assert(hits@.take(k + 1).drop_last() =~= hits@.take(k as int));
            assert(hits@.take(k + 1).last() == hits@[k as int]);
        }
        let h = hits[k];
        let t: usize = h.target;
        let mut a: Axol = axols[t];
        if a.actor.health.0 > 0 {
            let hp: i8 = a.actor.health.0 - h.amount as i8;
            a.actor.health = Health(hp, a.actor.health.1);
            if hp <= 0 {
                a.actor.anim_state = AnimState::Dead;
                a.actor.anim_frame = AnimFrame(0);
                a.despawn_grace = Some(Timer::from_millis(DESPAWN_GRACE_MS, false));
                score.0 = score.0 + KILL_BONUS;
                deaths = deaths + 1;
            }
            axols.set(t, a);
        }
        k = k + 1;
    }
    proof {
        assert(hits@.take(hits@.len() as int) =~= hits@);
    }
    deaths
}

/// A dead enemy's grace timer after this tick.
pub open spec fn spec_sweep_axol(a: Axol, delta_ms: u32) -> Axol {
    if a.actor.health.0 <= 0 && a.despawn_grace is Some {
        Axol { despawn_grace: Some(a.despawn_grace->0.spec_tick(delta_ms)), ..a }
    } else {
        a
    }
}

/// Whether an enemy survives the despawn sweep: everyone but a dead enemy
/// whose armed grace timer has completed.
pub open spec fn spec_axol_stays(a: Axol, delta_ms: u32) -> bool {
    !(a.actor.health.0 <= 0 && (a.despawn_grace matches Some(g) && g.spec_tick(
        delta_ms,
    ).spec_finished()))
}

/// The enemy list after one despawn sweep: dead enemies' grace timers are
/// advanced, and those whose grace has run out are removed, order kept.
pub open spec fn spec_sweep(s: Seq<Axol>, delta_ms: u32) -> Seq<Axol>
    decreases s.len(),
{
    if s.len() == 0 {
        Seq::empty()
    } else {
        let rest = spec_sweep(s.drop_last(), delta_ms);
        if spec_axol_stays(s.last(), delta_ms) {
            rest.push(spec_sweep_axol(s.last(), delta_ms))
        } else {
            rest
        }
    }
}

/// Tick the despawn-grace timer of every dead enemy and remove those whose
/// grace period has completed. Decoupling "visually dead" from "gone" this
/// way lets the death animation finish before the enemy is removed.
pub fn despawn_dead_entities(axols: &mut Vec<Axol>, delta_ms: u32)
    requires
        forall|k: int| 0 <= k < old(axols)@.len() ==> (#[trigger] old(axols)@[k]).wf(),
    ensures
        final(axols)@ == spec_sweep(old(axols)@, delta_ms),
        forall|k: int| 0 <= k < final(axols)@.len() ==> (#[trigger] final(axols)@[k]).wf(),
        forall|k: int|
            0 <= k < final(axols)@.len() ==> exists|j: int|
                0 <= j < old(axols)@.len() && (#[trigger] final(axols)@[k]).actor == old(
                    axols,
                )@[j].actor && final(axols)@[k].cooldown == old(axols)@[j].cooldown,
{
    let mut kept: Vec<Axol> = Vec::new();
    let mut i: usize = 0;
    while i < axols.len()
        invariant
            i <= axols@.len(),
            axols@ == old(axols)@,
            forall|k: int| 0 <= k < old(axols)@.len() ==> (#[trigger] old(axols)@[k]).wf(),
            kept@ == spec_sweep(old(axols)@.take(i as int), delta_ms),
            forall|k: int| 0 <= k < kept@.len() ==> (#[trigger] kept@[k]).wf(),
            forall|k: int|
                0 <= k < kept@.len() ==> exists|j: int|
                    0 <= j < old(axols)@.len() && (#[trigger] kept@[k]).actor == old(
                        axols,
                    )@[j].actor && kept@[k].cooldown == old(axols)@[j].cooldown,
        decreases axols@.len() - i,
    {
        proof {
            assert(old(axols)@.take(i + 1).drop_last() =~= old(axols)@.take(i as int));
            assert(old(axols)@.take(i + 1).last() == old(axols)@[i as int]);
        }
        let mut a: Axol = axols[i];
        if a.actor.health.0 <= 0 {
            match a.despawn_grace {
                Some(g) => {
                    let mut g2: Timer = g;
                    g2.tick(delta_ms);
                    a.despawn_grace = Some(g2);
                    if !g2.finished() {
                        kept.push(a);
                    }
                },
                None => {
                    kept.push(a);
                },
            }
        } else {
            kept.push(a);
        }
        i = i + 1;
    }
    proof {
        assert(old(axols)@.take(axols@.len() as int) =~= old(axols)@);
    }
    *axols = kept;
}


} // verus!
