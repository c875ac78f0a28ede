//! What holds of a tick of the whole swarm: who is lifted by whose flash, and
//! when a tick fits in 64 bits.

use vstd::prelude::*;
use crate::config::Dynamics;
use crate::fly::FlyState;
use crate::swarm::{
    after_ticks,
    after_turns,
    coupled,
    energy_limit,
    step_fits,
    swarm_stepped,
    turn_taken,
};
use crate::units::GLOW_THRESHOLD;

verus! {

/// Whether the flash of the fly at `source`, should it light up in this tick,
/// reaches the fly at `target`. The flash starts where `source` stands after
/// its move; `target` stands where it started if its turn is still to come,
/// and where its own move took it otherwise.
pub open spec fn reaches(flies: Seq<FlyState>, rules: Dynamics, source: int, target: int) -> bool {
    let origin = flies[source].moved(rules.half_extent).position;
    let aim = if source < target {
        flies[target].position
    } else {
        flies[target].moved(rules.half_extent).position
    };
    origin.within(aim, rules.coupling_radius)
}

/// A flash lifts the energy of every other fly within the coupling radius by
/// exactly the boost, and changes nothing else: not the fly that flashes, not
/// a fly out of reach, and of a fly in reach neither place, velocity, glow nor
/// shape.
pub proof fn lemma_flash_lifts_exactly_the_neighbours(
    flies: Seq<FlyState>,
    source: int,
    radius: int,
    boost: int,
    other: int,
)
    requires
        0 <= source < flies.len(),
        0 <= other < flies.len(),
    ensures
        coupled(flies, source, radius, boost).len() == flies.len(),
        other != source && flies[source].position.within(flies[other].position, radius)
            ==> coupled(flies, source, radius, boost)[other] == (FlyState {
            energy: flies[other].energy + boost,
            ..flies[other]
        }),
        other == source || !flies[source].position.within(flies[other].position, radius)
            ==> coupled(flies, source, radius, boost)[other] == flies[other],
{
}

/// In the turn of one fly, another fly gains exactly the boost if the first
/// lights up within the coupling radius of it, and is left as it was
/// otherwise.
pub proof fn lemma_turn_touches_only_neighbours(
    flies: Seq<FlyState>,
    rules: Dynamics,
    index: int,
    other: int,
)
    requires
        0 <= index < flies.len(),
        0 <= other < flies.len(),
        other != index,
    ensures
        turn_taken(flies, rules, index).len() == flies.len(),
        turn_taken(flies, rules, index)[index] == flies[index].stepped(
            rules.half_extent,
            rules.charge_rate,
            rules.discharge_rate,
        ),
        turn_taken(flies, rules, index)[other] == if flies[index].moved(rules.half_extent).fires(
            rules.charge_rate,
        ) && flies[index].moved(rules.half_extent).position.within(
            flies[other].position,
            rules.coupling_radius,
        ) {
            flies[other].boosted(rules.coupling_boost)
        } else {
            flies[other]
        },
{
}

/// Turns neither add nor remove flies.
pub proof fn lemma_turns_keep_length(flies: Seq<FlyState>, rules: Dynamics, count: nat)
    requires
        count <= flies.len(),
    ensures
        after_turns(flies, rules, count).len() == flies.len(),
    decreases count,
{
    if count > 0 {
        lemma_turns_keep_length(flies, rules, (count - 1) as nat);
    }
}

/// Where a fly is and how it moves depends on its own turn alone: once the
/// first `count` flies have taken their turns, each of them stands where its
/// move took it, and every other fly stands where it started. Flashes change
/// neither that nor the shape.
pub proof fn lemma_turns_move_each_fly_once(
    flies: Seq<FlyState>,
    rules: Dynamics,
    count: nat,
    j: int,
)
    requires
        count <= flies.len(),
        0 <= j < flies.len(),
    ensures
        after_turns(flies, rules, count).len() == flies.len(),
        after_turns(flies, rules, count)[j].shape == flies[j].shape,
        after_turns(flies, rules, count)[j].position == if j < count {
            flies[j].moved(rules.half_extent).position
        } else {
            flies[j].position
        },
        after_turns(flies, rules, count)[j].velocity == if j < count {
            flies[j].moved(rules.half_extent).velocity
        } else {
            flies[j].velocity
        },
    decreases count,
{
    if count > 0 {
        let before = after_turns(flies, rules, (count - 1) as nat);
        lemma_turns_move_each_fly_once(flies, rules, (count - 1) as nat, j);
        lemma_turns_move_each_fly_once(flies, rules, (count - 1) as nat, count - 1);
        if j != count - 1 {
            lemma_turn_touches_only_neighbours(before, rules, count - 1, j);
        }
    }
}

/// What a fly shows is settled by its own turn: at the end of a tick it
/// stands where its move took it and glows exactly if it glowed right after
/// its turn. Flashes later in the tick change its energy alone.
pub proof fn lemma_appearance_settles_in_own_turn(flies: Seq<FlyState>, rules: Dynamics, j: int)
    requires
        0 <= j < flies.len(),
    ensures
        swarm_stepped(flies, rules)[j].position == flies[j].moved(rules.half_extent).position,
        swarm_stepped(flies, rules)[j].velocity == flies[j].moved(rules.half_extent).velocity,
        swarm_stepped(flies, rules)[j].glowing == after_turns(
            flies,
            rules,
            (j + 1) as nat,
        )[j].glowing,
{
    lemma_turns_move_each_fly_once(flies, rules, flies.len(), j);
    lemma_glow_settles(flies, rules, flies.len(), j);
}

/// A tick leaves every fly between the walls, with the speed it had along
/// each axis, and with its shape.
pub proof fn lemma_tick_keeps_flies_inside(flies: Seq<FlyState>, rules: Dynamics, j: int)
    requires
        0 <= j < flies.len(),
        rules.half_extent >= 0,
    ensures
        -rules.half_extent <= swarm_stepped(flies, rules)[j].position.x <= rules.half_extent,
        -rules.half_extent <= swarm_stepped(flies, rules)[j].position.y <= rules.half_extent,
        swarm_stepped(flies, rules)[j].velocity.x == flies[j].velocity.x || swarm_stepped(
            flies,
            rules,
        )[j].velocity.x == -flies[j].velocity.x,
        swarm_stepped(flies, rules)[j].velocity.y == flies[j].velocity.y || swarm_stepped(
            flies,
            rules,
        )[j].velocity.y == -flies[j].velocity.y,
        swarm_stepped(flies, rules)[j].shape == flies[j].shape,
{
    lemma_turns_move_each_fly_once(flies, rules, flies.len(), j);
}

/// For as long as the swarm runs it keeps its length, every fly keeps its
/// shape and its speed along each axis, and from the first tick on every fly
/// stands between the walls.
pub proof fn lemma_ticks_keep_flies_inside(
    flies: Seq<FlyState>,
    rules: Dynamics,
    count: nat,
    j: int,
)
    requires
        0 <= j < flies.len(),
        rules.half_extent >= 0,
    ensures
        after_ticks(flies, rules, count).len() == flies.len(),
        after_ticks(flies, rules, count)[j].shape == flies[j].shape,
        after_ticks(flies, rules, count)[j].velocity.x == flies[j].velocity.x || after_ticks(
            flies,
            rules,
            count,
        )[j].velocity.x == -flies[j].velocity.x,
        after_ticks(flies, rules, count)[j].velocity.y == flies[j].velocity.y || after_ticks(
            flies,
            rules,
            count,
        )[j].velocity.y == -flies[j].velocity.y,
        count > 0 ==> -rules.half_extent <= after_ticks(flies, rules, count)[j].position.x
            <= rules.half_extent,
        count > 0 ==> -rules.half_extent <= after_ticks(flies, rules, count)[j].position.y
            <= rules.half_extent,
    decreases count,
{
    if count > 0 {
        lemma_turns_keep_length(flies, rules, flies.len());
        lemma_tick_keeps_flies_inside(flies, rules, j);
        lemma_ticks_keep_flies_inside(swarm_stepped(flies, rules), rules, (count - 1) as nat, j);
    }
}

/// Once a fly has taken its turn, later turns of the tick leave its glow as
/// it is.
proof fn lemma_glow_settles(flies: Seq<FlyState>, rules: Dynamics, count: nat, j: int)
    requires
        0 <= j < count <= flies.len(),
    ensures
        after_turns(flies, rules, count)[j].glowing == after_turns(
            flies,
            rules,
            (j + 1) as nat,
        )[j].glowing,
    decreases count,
{
    if count > j + 1 {
        let before = after_turns(flies, rules, (count - 1) as nat);
        lemma_turns_keep_length(flies, rules, (count - 1) as nat);
        lemma_glow_settles(flies, rules, (count - 1) as nat, j);
        lemma_turn_touches_only_neighbours(before, rules, count - 1, j);
    }
}

/// Whether the fly at `source` lights up in its turn of this tick within
/// reach of the fly at `target`.
pub open spec fn flashes_at(flies: Seq<FlyState>, rules: Dynamics, source: int, target: int)
    -> bool {
    &&& source != target
    &&& after_turns(flies, rules, source as nat)[source].moved(rules.half_extent).fires(
        rules.charge_rate,
    )
    &&& reaches(flies, rules, source, target)
}

/// What the fly at `target` receives in this tick from the flies at `from`
/// up to, but not including, `to`: one boost for each of them that lights up
/// within reach of it.
pub open spec fn energy_received(
    flies: Seq<FlyState>,
    rules: Dynamics,
    target: int,
    from: int,
    to: int,
) -> int
    decreases to - from,
{
    if to <= from {
        0
    } else {
        energy_received(flies, rules, target, from, to - 1) + if flashes_at(
            flies,
            rules,
            to - 1,
            target,
        ) {
            rules.coupling_boost
        } else {
            0
        }
    }
}

/// The whole account of a tick for one fly: it receives what the flashes of
/// the flies before it hand it, takes its own turn with that, and then
/// receives what the flashes of the flies after it hand it.
pub proof fn lemma_tick_accounts_for_every_flash(
    flies: Seq<FlyState>,
    rules: Dynamics,
    target: int,
)
    requires
        0 <= target < flies.len(),
    ensures
        swarm_stepped(flies, rules)[target] == flies[target].boosted(
            energy_received(flies, rules, target, 0, target),
        ).stepped(rules.half_extent, rules.charge_rate, rules.discharge_rate).boosted(
            energy_received(flies, rules, target, target + 1, flies.len() as int),
        ),
{
    lemma_account_so_far(flies, rules, target, flies.len());
}

/// The account of a tick for one fly once the first `count` flies have taken
/// their turns.
proof fn lemma_account_so_far(flies: Seq<FlyState>, rules: Dynamics, target: int, count: nat)
    requires
        0 <= target < flies.len(),
        count <= flies.len(),
    ensures
        after_turns(flies, rules, count)[target] == if count <= target {
            flies[target].boosted(energy_received(flies, rules, target, 0, count as int))
        } else {
            flies[target].boosted(energy_received(flies, rules, target, 0, target)).stepped(
                rules.half_extent,
                rules.charge_rate,
                rules.discharge_rate,
            ).boosted(energy_received(flies, rules, target, target + 1, count as int))
        },
    decreases count,
{
    if count > 0 {
        let turn = count - 1;
        let before = after_turns(flies, rules, turn as nat);
        lemma_account_so_far(flies, rules, target, turn as nat);
        lemma_turns_move_each_fly_once(flies, rules, turn as nat, turn);
        lemma_turns_move_each_fly_once(flies, rules, turn as nat, target);
        if turn != target {
            lemma_turn_touches_only_neighbours(before, rules, turn, target);
        }
    }
}

/// A fly receives nothing from flies of which none lights up within reach of
/// it.
pub proof fn lemma_nothing_received_without_flash(
    flies: Seq<FlyState>,
    rules: Dynamics,
    target: int,
    from: int,
    to: int,
)
    requires
        forall|i: int| from <= i < to ==> !#[trigger] flashes_at(flies, rules, i, target),
    ensures
        energy_received(flies, rules, target, from, to) == 0,
    decreases to - from,
{
    if from < to {
        lemma_nothing_received_without_flash(flies, rules, target, from, to - 1);
    }
}

/// A fly receives exactly one boost from flies of which exactly one lights up
/// within reach of it.
pub proof fn lemma_one_boost_received_from_one_flash(
    flies: Seq<FlyState>,
    rules: Dynamics,
    source: int,
    target: int,
    from: int,
    to: int,
)
    requires
        from <= source < to,
        flashes_at(flies, rules, source, target),
        forall|i: int|
            from <= i < to && i != source ==> !#[trigger] flashes_at(flies, rules, i, target),
    ensures
        energy_received(flies, rules, target, from, to) == rules.coupling_boost,
    decreases to - from,
{
    if source == to - 1 {
        lemma_nothing_received_without_flash(flies, rules, target, from, to - 1);
    } else {
        lemma_one_boost_received_from_one_flash(flies, rules, source, target, from, to - 1);
    }
}

/// A fly farther than the coupling radius from every other fly goes through
/// the tick as if it were alone: it moves and its charge cycle advances, and
/// it receives no boost, whichever of the others light up.
pub proof fn lemma_unreached_fly_steps_alone(flies: Seq<FlyState>, rules: Dynamics, target: int)
    requires
        0 <= target < flies.len(),
        forall|i: int|
            0 <= i < flies.len() && i != target ==> !#[trigger] reaches(flies, rules, i, target),
    ensures
        swarm_stepped(flies, rules)[target] == flies[target].stepped(
            rules.half_extent,
            rules.charge_rate,
            rules.discharge_rate,
        ),
{
    assert forall|i: int| 0 <= i < flies.len() implies !#[trigger] flashes_at(
        flies,
        rules,
        i,
        target,
    ) by {
        if i != target {
            assert(!reaches(flies, rules, i, target));
        }
    }
    lemma_nothing_received_without_flash(flies, rules, target, 0, target);
    lemma_nothing_received_without_flash(flies, rules, target, target + 1, flies.len() as int);
    lemma_tick_accounts_for_every_flash(flies, rules, target);
}

/// When the fly at `source` lights up within reach of the fly at `target`,
/// and no third fly does, `target` ends the tick with exactly one boost more
/// than it would have had alone. If its own turn was still to come, the boost
/// went into that turn; if its own turn was over, the boost lies on top of
/// the outcome.
pub proof fn lemma_flash_lifts_neighbour(
    flies: Seq<FlyState>,
    rules: Dynamics,
    source: int,
    target: int,
)
    requires
        0 <= source < flies.len(),
        0 <= target < flies.len(),
        flashes_at(flies, rules, source, target),
        forall|i: int|
            0 <= i < flies.len() && i != source ==> !#[trigger] flashes_at(
                flies,
                rules,
                i,
                target,
            ),
    ensures
        swarm_stepped(flies, rules)[target] == if source < target {
            flies[target].boosted(rules.coupling_boost).stepped(
                rules.half_extent,
                rules.charge_rate,
                rules.discharge_rate,
            )
        } else {
            flies[target].stepped(
                rules.half_extent,
                rules.charge_rate,
                rules.discharge_rate,
            ).boosted(rules.coupling_boost)
        },
{
    lemma_tick_accounts_for_every_flash(flies, rules, target);
    if source < target {
        lemma_one_boost_received_from_one_flash(flies, rules, source, target, 0, target);
        lemma_nothing_received_without_flash(
            flies,
            rules,
            target,
            target + 1,
            flies.len() as int,
        );
    } else {
        lemma_nothing_received_without_flash(flies, rules, target, 0, target);
        lemma_one_boost_received_from_one_flash(
            flies,
            rules,
            source,
            target,
            target + 1,
            flies.len() as int,
        );
    }
}

/// Whether the fly at `target` stays farther than the coupling radius from
/// every other fly throughout the first `count` ticks.
pub open spec fn isolated_for(flies: Seq<FlyState>, rules: Dynamics, target: int, count: nat)
    -> bool {
    forall|tick: nat, i: int|
        tick < count && 0 <= i < flies.len() && i != target ==> !#[trigger] reaches(
            after_ticks(flies, rules, tick),
            rules,
            i,
            target,
        )
}

/// A fly that stays out of reach of every other fly lives through the ticks
/// of the swarm as it would on its own.
pub proof fn lemma_isolated_fly_ticks_alone(
    flies: Seq<FlyState>,
    rules: Dynamics,
    target: int,
    count: nat,
)
    requires
        0 <= target < flies.len(),
        isolated_for(flies, rules, target, count),
    ensures
        after_ticks(flies, rules, count).len() == flies.len(),
        after_ticks(flies, rules, count)[target] == flies[target].after_steps(
            rules.half_extent,
            rules.charge_rate,
            rules.discharge_rate,
            count,
        ),
    decreases count,
{
    if count > 0 {
        let next = swarm_stepped(flies, rules);
        lemma_turns_keep_length(flies, rules, flies.len());
        assert forall|i: int| 0 <= i < flies.len() && i != target implies !#[trigger] reaches(
            flies,
            rules,
            i,
            target,
        ) by {
            assert(!reaches(after_ticks(flies, rules, 0), rules, i, target));
        }
        lemma_unreached_fly_steps_alone(flies, rules, target);
        assert forall|tick: nat, i: int|
            tick < count - 1 && 0 <= i < next.len() && i != target implies !#[trigger] reaches(
            after_ticks(next, rules, tick),
            rules,
            i,
            target,
        ) by {
            assert(after_ticks(next, rules, tick) == after_ticks(flies, rules, tick + 1));
            assert(!reaches(after_ticks(flies, rules, tick + 1), rules, i, target));
        }
        lemma_isolated_fly_ticks_alone(next, rules, target, (count - 1) as nat);
    }
}

/// A swarm of a single fly is that fly on its own.
pub proof fn lemma_single_fly_ticks_alone(fly: FlyState, rules: Dynamics, count: nat)
    ensures
        after_ticks(seq![fly], rules, count) == seq![
            fly.after_steps(rules.half_extent, rules.charge_rate, rules.discharge_rate, count),
        ],
{
    assert(isolated_for(seq![fly], rules, 0, count));
    lemma_isolated_fly_ticks_alone(seq![fly], rules, 0, count);
    assert(after_ticks(seq![fly], rules, count) =~= seq![
        fly.after_steps(rules.half_extent, rules.charge_rate, rules.discharge_rate, count),
    ]);
}

/// The energy of a fly does not rise in a tick of its own above the larger of
/// what it was and the glow threshold, as long as discharging does not add
/// energy.
proof fn lemma_tick_bounded(fly: FlyState, rules: Dynamics, bound: int)
    requires
        rules.discharge_rate >= 0,
        fly.energy <= bound,
        GLOW_THRESHOLD <= bound,
    ensures
        fly.stepped(rules.half_extent, rules.charge_rate, rules.discharge_rate).energy <= bound,
{
}

/// Each turn lifts the energy of a fly by one boost at most.
proof fn lemma_energy_after_turns(
    flies: Seq<FlyState>,
    rules: Dynamics,
    limit: int,
    count: nat,
    j: int,
)
    requires
        rules.discharge_rate >= 0,
        rules.coupling_boost >= 0,
        GLOW_THRESHOLD <= limit,
        forall|i: int| 0 <= i < flies.len() ==> (#[trigger] flies[i]).energy <= limit,
        count <= flies.len(),
        0 <= j < flies.len(),
    ensures
        after_turns(flies, rules, count)[j].energy <= limit + count * rules.coupling_boost,
    decreases count,
{
    if count > 0 {
        let turn = count - 1;
        let before = after_turns(flies, rules, turn as nat);
        let bound = limit + turn * rules.coupling_boost;
        lemma_turns_keep_length(flies, rules, turn as nat);
        lemma_energy_after_turns(flies, rules, limit, turn as nat, j);
        assert(0 <= turn * rules.coupling_boost && count * rules.coupling_boost == turn
            * rules.coupling_boost + rules.coupling_boost) by (nonlinear_arith)
            requires
                turn == count - 1,
                turn >= 0,
                rules.coupling_boost >= 0,
        ;
        if j == turn {
            lemma_tick_bounded(before[j], rules, bound);
        } else {
            lemma_turn_touches_only_neighbours(before, rules, turn, j);
        }
    } else {
        assert(count * rules.coupling_boost == 0) by (nonlinear_arith)
            requires
                count == 0,
        ;
    }
}

/// A tick fits in 64 bits when the glow threshold and the energy of every fly
/// lie at or below [`energy_limit`]: no fly can gather more than one boost
/// per turn.
pub proof fn lemma_headroom_suffices(flies: Seq<FlyState>, rules: Dynamics)
    requires
        rules.discharge_rate >= 0,
        rules.coupling_boost >= 0,
        GLOW_THRESHOLD <= energy_limit(flies.len() as int, rules.coupling_boost),
        forall|i: int|
            0 <= i < flies.len() ==> (#[trigger] flies[i]).energy <= energy_limit(
                flies.len() as int,
                rules.coupling_boost,
            ),
    ensures
        step_fits(flies, rules),
{
    let limit = energy_limit(flies.len() as int, rules.coupling_boost);
    assert forall|count: nat, j: int| count <= flies.len() && 0 <= j < flies.len() implies (
    #[trigger] after_turns(flies, rules, count)[j]).energy <= i64::MAX by {
        lemma_energy_after_turns(flies, rules, limit, count, j);
        assert(count * rules.coupling_boost <= flies.len() * rules.coupling_boost)
            by (nonlinear_arith)
            requires
                count <= flies.len(),
                rules.coupling_boost >= 0,
        ;
    }
}

} // verus!
