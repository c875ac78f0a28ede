//! What holds of the motion and of the charge cycle of a single fly.

use vstd::prelude::*;
use crate::boundary::hits_wall;
use crate::fly::FlyState;
use crate::units::{CHARGE_CEILING, GLOW_THRESHOLD};

verus! {

impl FlyState {
    /// Whether the fly takes part in the charge cycle: a glowing fly whose
    /// energy is not negative, or a dark fly at or below the charge ceiling.
    /// A tick changes such a fly, and no other.
    pub open spec fn in_cycle(self) -> bool {
        if self.glowing {
            self.energy >= 0
        } else {
            self.energy <= CHARGE_CEILING
        }
    }
}

/// Moving a fly leaves both coordinates between the walls. Along each axis the
/// velocity is reversed, with its magnitude kept, exactly when the step
/// touched a wall. Shape, energy and glow are not touched.
pub proof fn lemma_motion_stays_inside(fly: FlyState, half_extent: int)
    requires
        half_extent >= 0,
    ensures
        -half_extent <= fly.moved(half_extent).position.x <= half_extent,
        -half_extent <= fly.moved(half_extent).position.y <= half_extent,
        fly.moved(half_extent).velocity.x == if hits_wall(
            fly.position.x,
            fly.velocity.x,
            half_extent,
        ) {
            -fly.velocity.x
        } else {
            fly.velocity.x
        },
        fly.moved(half_extent).velocity.y == if hits_wall(
            fly.position.y,
            fly.velocity.y,
            half_extent,
        ) {
            -fly.velocity.y
        } else {
            fly.velocity.y
        },
        fly.moved(half_extent).energy == fly.energy,
        fly.moved(half_extent).glowing == fly.glowing,
        fly.moved(half_extent).shape == fly.shape,
{
}

/// A tick that crosses a threshold clamps the energy: a fly that lights up
/// holds exactly the glow threshold, a fly that goes out holds exactly zero.
/// After the tick the fly glows exactly when it has just lit up, or glowed
/// before and did not go out. Where the fly is and how it moves is not
/// touched.
pub proof fn lemma_tick_clamps_at_thresholds(fly: FlyState, charge_rate: int, discharge_rate: int)
    ensures
        fly.fires(charge_rate) ==> fly.ticked(charge_rate, discharge_rate).energy
            == GLOW_THRESHOLD,
        fly.fades(discharge_rate) ==> fly.ticked(charge_rate, discharge_rate).energy == 0,
        fly.ticked(charge_rate, discharge_rate).glowing == (fly.fires(charge_rate) || (fly.glowing
            && !fly.fades(discharge_rate))),
        fly.ticked(charge_rate, discharge_rate).glowing != fly.glowing ==> 0 <= fly.ticked(
            charge_rate,
            discharge_rate,
        ).energy <= GLOW_THRESHOLD,
        fly.ticked(charge_rate, discharge_rate).position == fly.position,
        fly.ticked(charge_rate, discharge_rate).velocity == fly.velocity,
        fly.ticked(charge_rate, discharge_rate).shape == fly.shape,
{
}

/// A dark fly at or below the charge ceiling never leaves a tick above the
/// glow threshold, however much energy its neighbours handed it before.
pub proof fn lemma_tick_caps_charge(fly: FlyState, charge_rate: int, discharge_rate: int)
    requires
        !fly.glowing,
        fly.energy <= CHARGE_CEILING,
    ensures
        fly.ticked(charge_rate, discharge_rate).energy <= GLOW_THRESHOLD,
{
}

/// With rates that are not negative, a fly whose energy lies between zero and
/// the glow threshold keeps it there through any number of ticks of its own.
pub proof fn lemma_energy_stays_in_range(
    fly: FlyState,
    half_extent: int,
    charge_rate: int,
    discharge_rate: int,
    count: nat,
)
    requires
        charge_rate >= 0,
        discharge_rate >= 0,
        0 <= fly.energy <= GLOW_THRESHOLD,
    ensures
        0 <= fly.after_steps(half_extent, charge_rate, discharge_rate, count).energy
            <= GLOW_THRESHOLD,
    decreases count,
{
    if count > 0 {
        lemma_energy_stays_in_range(
            fly.stepped(half_extent, charge_rate, discharge_rate),
            half_extent,
            charge_rate,
            discharge_rate,
            (count - 1) as nat,
        );
    }
}

/// Running `first` ticks and then `second` ticks is running `first + second`
/// ticks.
pub proof fn lemma_steps_compose(
    fly: FlyState,
    half_extent: int,
    charge_rate: int,
    discharge_rate: int,
    first: nat,
    second: nat,
)
    ensures
        fly.after_steps(half_extent, charge_rate, discharge_rate, first + second)
            == fly.after_steps(half_extent, charge_rate, discharge_rate, first).after_steps(
            half_extent,
            charge_rate,
            discharge_rate,
            second,
        ),
    decreases first,
{
    if first > 0 {
        lemma_steps_compose(
            fly.stepped(half_extent, charge_rate, discharge_rate),
            half_extent,
            charge_rate,
            discharge_rate,
            (first - 1) as nat,
            second,
        );
    }
}

/// With positive rates a fly in the cycle never rests: each tick changes its
/// energy or its glow, and leaves it in the cycle.
pub proof fn lemma_cycle_never_rests(
    fly: FlyState,
    half_extent: int,
    charge_rate: int,
    discharge_rate: int,
)
    requires
        charge_rate > 0,
        discharge_rate > 0,
        fly.in_cycle(),
    ensures
        fly.stepped(half_extent, charge_rate, discharge_rate).in_cycle(),
        fly.stepped(half_extent, charge_rate, discharge_rate).energy != fly.energy || fly.stepped(
            half_extent,
            charge_rate,
            discharge_rate,
        ).glowing != fly.glowing,
{
}

/// With positive rates a fly in the cycle stays in it through any number of
/// ticks of its own.
pub proof fn lemma_cycle_is_kept(
    fly: FlyState,
    half_extent: int,
    charge_rate: int,
    discharge_rate: int,
    count: nat,
)
    requires
        charge_rate > 0,
        discharge_rate > 0,
        fly.in_cycle(),
    ensures
        fly.after_steps(half_extent, charge_rate, discharge_rate, count).in_cycle(),
    decreases count,
{
    if count > 0 {
        lemma_cycle_is_kept(
            fly.stepped(half_extent, charge_rate, discharge_rate),
            half_extent,
            charge_rate,
            discharge_rate,
            (count - 1) as nat,
        );
    }
}

/// With positive rates every phase of a fly in the cycle ends: after the
/// returned number of ticks of its own, a dark fly has just lit up at exactly
/// the glow threshold, and a glowing fly has just gone out at exactly zero.
pub proof fn lemma_phase_ends(
    fly: FlyState,
    half_extent: int,
    charge_rate: int,
    discharge_rate: int,
) -> (count: nat)
    requires
        charge_rate > 0,
        discharge_rate > 0,
        fly.in_cycle(),
    ensures
        count > 0,
        fly.after_steps(half_extent, charge_rate, discharge_rate, count).glowing != fly.glowing,
        fly.after_steps(half_extent, charge_rate, discharge_rate, count).energy == if fly.glowing {
            0
        } else {
            GLOW_THRESHOLD as int
        },
        fly.after_steps(half_extent, charge_rate, discharge_rate, count).in_cycle(),
    decreases
            (if fly.glowing {
                fly.energy
            } else {
                GLOW_THRESHOLD - fly.energy
            }),
{
    let next = fly.stepped(half_extent, charge_rate, discharge_rate);
    reveal_with_fuel(FlyState::after_steps, 2);
    if next.glowing != fly.glowing {
        1
    } else {
        let rest = lemma_phase_ends(next, half_extent, charge_rate, discharge_rate);
        rest + 1
    }
}

/// A fly that no neighbour reaches cycles for ever: with positive rates, and
/// starting in the cycle, whatever number of ticks has passed, its glow
/// changes again at a later tick.
pub proof fn lemma_lone_fly_cycles_forever(
    fly: FlyState,
    half_extent: int,
    charge_rate: int,
    discharge_rate: int,
    passed: nat,
) -> (later: nat)
    requires
        charge_rate > 0,
        discharge_rate > 0,
        fly.in_cycle(),
    ensures
        later > passed,
        fly.after_steps(half_extent, charge_rate, discharge_rate, later).glowing
            != fly.after_steps(half_extent, charge_rate, discharge_rate, passed).glowing,
{
    let now = fly.after_steps(half_extent, charge_rate, discharge_rate, passed);
    lemma_cycle_is_kept(fly, half_extent, charge_rate, discharge_rate, passed);
    let more = lemma_phase_ends(now, half_extent, charge_rate, discharge_rate);
    lemma_steps_compose(fly, half_extent, charge_rate, discharge_rate, passed, more);
    passed + more
}

} // verus!
