//! The player and the jump/fall controller's data: charge-to-power mapping,
//! closed-form jump arc, and closed-form failure fall. Every position is
//! recomputed from the elapsed time of the attempt, so there is no drift.

use vstd::prelude::*;
use crate::platform::COORD_CAP;
use crate::platform::GAP_MAX;
use crate::platform::Platform;
use crate::platform::next_platform_spec;

verus! {

/// Charge ticks at which jump power saturates: holding longer adds nothing.
pub const MAX_CHARGE: i64 = 50;

/// Charge ticks per unit of jump distance.
pub const CHARGE_PER_UNIT: i64 = 10;

/// Maximum horizontal jump distance, reached at `MAX_CHARGE`.
pub const MAX_JUMP: i64 = 5;

/// Flight ticks per unit of jump distance: a jump of power `p` is airborne
/// for `p * TICKS_PER_UNIT` ticks.
pub const TICKS_PER_UNIT: i64 = 10;

/// Divisor shaping the height of the parabolic arc.
pub const ARC_DIV: i64 = 5;

/// Units fallen per tick during the failure fall.
pub const FALL_SPEED: i64 = 2;

/// Height below which a failure fall is final and the run ends.
pub const FALL_FLOOR: i64 = -100;

/// Saturation bound on the fall timer, so elapsed-time arithmetic stays in
/// range however long a caller keeps ticking.
pub const FALL_ELAPSED_CAP: i64 = 1_000_000;

/// Loose bound on the player's horizontal position: a platform's right edge
/// plus a whole maximum jump never passes it.
pub const PLAYER_X_CAP: i64 = COORD_CAP + 16;

/// The player: a position in world units. Ground height is zero.
#[derive(Clone, Copy, PartialEq, Eq, Structural, Debug)]
pub struct Player {
    pub x: i64,
    pub y: i64,
}

/// One jump attempt: an elapsed-time timer, the launch position, and the
/// jump power captured at launch. Reset at each launch.
#[derive(Clone, Copy, PartialEq, Eq, Structural, Debug)]
pub struct JumpState {
    pub in_progress: bool,
    pub elapsed: i64,
    pub launch_x: i64,
    pub power: i64,
}

/// The failure-case falling animation, mutually exclusive with a jump.
#[derive(Clone, Copy, PartialEq, Eq, Structural, Debug)]
pub struct FallState {
    pub in_progress: bool,
    pub elapsed: i64,
    pub start_x: i64,
}

/// The idle jump state: no attempt in progress.
pub open spec fn jump_idle() -> JumpState {
    JumpState { in_progress: false, elapsed: 0, launch_x: 0, power: 0 }
}

/// The idle fall state: no fall in progress.
pub open spec fn fall_idle() -> FallState {
    FallState { in_progress: false, elapsed: 0, start_x: 0 }
}

/// Build the idle jump state.
pub fn idle_jump() -> (j: JumpState)
    ensures
        j == jump_idle(),
{
    JumpState { in_progress: false, elapsed: 0, launch_x: 0, power: 0 }
}

/// Build the idle fall state.
pub fn idle_fall() -> (f: FallState)
    ensures
        f == fall_idle(),
{
    FallState { in_progress: false, elapsed: 0, start_x: 0 }
}

/// Jump power earned by holding the charge input for `charge` ticks: one unit
/// of distance per `CHARGE_PER_UNIT` ticks, clamped at `MAX_CHARGE`.
pub open spec fn power_of(charge: i64) -> int {
    (if charge <= MAX_CHARGE {
        charge as int
    } else {
        MAX_CHARGE as int
    }) / CHARGE_PER_UNIT as int
}

/// Compute the jump power for a charge duration.
pub fn jump_power(charge: i64) -> (p: i64)
    requires
        0 <= charge,
    ensures
        p == power_of(charge),
        0 <= p <= MAX_JUMP,
{
    let clamped: i64 = if charge <= MAX_CHARGE {
        charge
    } else {
        MAX_CHARGE
    };
    clamped / CHARGE_PER_UNIT
}

/// Clamping law: holding the charge input for the configured maximum or any
/// longer yields exactly the power of the maximum, never more.
pub proof fn lemma_power_clamped(charge: i64)
    requires
        charge >= MAX_CHARGE,
    ensures
        power_of(charge) == power_of(MAX_CHARGE),
{
}

/// A jump of the given power, launched from the right edge of `prev`, comes
/// down within the span of `p`.
pub open spec fn reachable_with(prev: Platform, p: Platform, power: int) -> bool {
    &&& 0 <= power <= MAX_JUMP
    &&& p.left <= prev.right() + power <= p.left + p.width
}

/// Reachability invariant: every platform the generator produces can be
/// reached from the right edge of the previous platform by a jump of some
/// power no greater than the maximum jump distance — the gap and width ranges
/// are jointly constrained so a valid landing power always exists, also where
/// the left coordinate saturates at `COORD_CAP` (a saturated platform takes
/// the full width, so its span still covers the previous edge's reach).
pub proof fn lemma_platform_reachable(prev: Platform, score: u64, r1: u64, r2: u64)
    requires
        prev.wf(),
    ensures
        exists|power: int| reachable_with(prev, next_platform_spec(prev, score, r1, r2), power),
{
    let p = next_platform_spec(prev, score, r1, r2);
    if prev.right() + GAP_MAX <= COORD_CAP {
        let witness = p.left - prev.right();
        assert(reachable_with(prev, p, witness));
    } else if prev.right() <= p.left {
        let witness = p.left - prev.right();
        assert(reachable_with(prev, p, witness));
    } else {
        assert(reachable_with(prev, p, 0));
    }
}

/// Total flight time of a jump of the given power.
pub open spec fn flight_ticks(power: int) -> int {
    power * TICKS_PER_UNIT
}

/// Horizontal position of the arc at jump-elapsed time `e`: the launch point
/// plus one unit of distance per `TICKS_PER_UNIT` ticks.
pub open spec fn arc_x(launch_x: int, e: int) -> int {
    launch_x + e / TICKS_PER_UNIT as int
}

/// Vertical position of the arc at jump-elapsed time `e`: a parabola that is
/// zero at launch and at touchdown (`e == flight_ticks(power)`).
pub open spec fn arc_y(power: int, e: int) -> int {
    e * (flight_ticks(power) - e) / ARC_DIV as int
}

/// Vertical position of the failure fall at fall-elapsed time `e`.
pub open spec fn fall_y(e: int) -> int {
    -(FALL_SPEED * e)
}

} // verus!
