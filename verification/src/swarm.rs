//! The swarm: an ordered row of flies that take their turns one after the
//! other.
//!
//! A tick of the swarm gives every fly one turn, in the order of the row. In
//! its turn a fly moves, then its charge cycle advances, and if that lit it up
//! its flash reaches every other fly within the coupling radius at once. A fly
//! later in the row therefore takes its own turn with the energy that earlier
//! flashes of the same tick have handed it.

use vstd::prelude::*;
use crate::config::{Config, Dynamics};
use crate::coupling::lemma_headroom_suffices;
use crate::fly::{Fly, FlyState};
use crate::units::GLOW_THRESHOLD;
use crate::vector::Vector2;

verus! {

/// The states that a row of flies stands for.
pub open spec fn states_of(flies: Seq<Fly>) -> Seq<FlyState> {
    Seq::new(flies.len(), |i: int| flies[i]@)
}

/// The row after the fly at `source` has flashed: every other fly within
/// `radius` of it has gained `boost`, and nothing else has changed.
pub open spec fn coupled(flies: Seq<FlyState>, source: int, radius: int, boost: int) -> Seq<
    FlyState,
> {
    Seq::new(
        flies.len(),
        |j: int|
            if j != source && flies[source].position.within(flies[j].position, radius) {
                flies[j].boosted(boost)
            } else {
                flies[j]
            },
    )
}

/// The row after the fly at `index` has taken its turn: it has moved, its
/// charge cycle has advanced, and if that lit it up, its flash has reached its
/// neighbours where they stand now.
pub open spec fn turn_taken(flies: Seq<FlyState>, rules: Dynamics, index: int) -> Seq<FlyState> {
    let moved = flies[index].moved(rules.half_extent);
    let row = flies.update(index, moved.ticked(rules.charge_rate, rules.discharge_rate));
    if moved.fires(rules.charge_rate) {
        coupled(row, index, rules.coupling_radius, rules.coupling_boost)
    } else {
        row
    }
}

/// The row after the first `count` flies have taken their turns, in order.
pub open spec fn after_turns(flies: Seq<FlyState>, rules: Dynamics, count: nat) -> Seq<FlyState>
    decreases count,
{
    if count == 0 {
        flies
    } else {
        turn_taken(after_turns(flies, rules, (count - 1) as nat), rules, count - 1)
    }
}

/// The row after one tick of the swarm: every fly has taken its turn.
pub open spec fn swarm_stepped(flies: Seq<FlyState>, rules: Dynamics) -> Seq<FlyState> {
    after_turns(flies, rules, flies.len())
}

/// The row after `count` ticks of the swarm.
pub open spec fn after_ticks(flies: Seq<FlyState>, rules: Dynamics, count: nat) -> Seq<FlyState>
    decreases count,
{
    if count == 0 {
        flies
    } else {
        after_ticks(swarm_stepped(flies, rules), rules, (count - 1) as nat)
    }
}

/// Whether a tick can be computed in 64 bits: at no point of it does the
/// energy of a fly exceed `i64::MAX`.
pub open spec fn step_fits(flies: Seq<FlyState>, rules: Dynamics) -> bool {
    forall|count: nat, j: int|
        count <= flies.len() && 0 <= j < flies.len() ==> (#[trigger] after_turns(
            flies,
            rules,
            count,
        )[j]).energy <= i64::MAX
}

/// The energy up to which every fly of a swarm of `count` flies can take
/// `count` boosts without leaving 64 bits.
pub open spec fn energy_limit(count: int, boost: int) -> int {
    i64::MAX - count * boost
}

/// As many boosts as there are flies fit in 128 bits.
proof fn lemma_boosts_fit(count: int, boost: int)
    by (nonlinear_arith)
    requires
        0 <= count <= u64::MAX,
        0 <= boost <= i64::MAX,
    ensures
        0 <= count * boost <= u64::MAX * i64::MAX,
{
}

/// A swarm of flies with its settings. The row never grows or shrinks.
pub struct Swarm {
    agents: Vec<Fly>,
    config: Config,
}

impl View for Swarm {
    type V = Seq<FlyState>;

    closed spec fn view(&self) -> Seq<FlyState> {
        states_of(self.agents@)
    }
}

impl Swarm {
    /// The settings that the swarm was made with.
    pub closed spec fn settings(&self) -> Config {
        self.config
    }

    /// The settings are valid and every fly can reverse.
    pub open spec fn wf(&self) -> bool {
        &&& self.settings().wf()
        &&& forall|i: int| 0 <= i < self@.len() ==> (#[trigger] self@[i]).reversible()
    }

    /// Every fly is at or below [`energy_limit`], and so is the glow
    /// threshold: enough for a tick to fit, see
    /// [`lemma_headroom_suffices`](crate::coupling::lemma_headroom_suffices).
    pub open spec fn has_headroom(&self) -> bool {
        let limit = energy_limit(self@.len() as int, self.settings().coupling_boost as int);
        &&& GLOW_THRESHOLD <= limit
        &&& forall|i: int| 0 <= i < self@.len() ==> (#[trigger] self@[i]).energy <= limit
    }

    /// Makes a swarm of the given flies, in their order, or `None` when the
    /// settings are not valid or a fly is not well formed.
    pub fn new(config: Config, agents: Vec<Fly>) -> (made: Option<Swarm>)
        ensures
            made is Some <==> config.wf() && forall|i: int|
                0 <= i < agents.len() ==> (#[trigger] agents[i]).wf(),
            made matches Some(swarm) ==> swarm.wf() && swarm.settings() == config && swarm@
                == states_of(agents@),
    {
        if !config.is_valid() {
            return None;
        }
        let mut i: usize = 0;
        while i < agents.len()
            invariant
                i <= agents.len(),
                forall|k: int| 0 <= k < i ==> (#[trigger] agents[k]).wf(),
            decreases agents.len() - i,
        {
            if !agents[i].is_well_formed() {
                return None;
            }
            i += 1;
        }
        Some(Swarm { agents, config })
    }

    /// Makes a swarm of `config.agent_count` new flies, each drawn on its own
    /// as [`Fly::new`] draws it. The shape of a fly is its place in the row.
    pub fn spawn(config: Config) -> (swarm: Swarm)
        requires
            config.wf(),
        ensures
            swarm.wf(),
            swarm.settings() == config,
            swarm@.len() == config.agent_count,
            forall|i: int|
                0 <= i < swarm@.len() ==> (#[trigger] swarm@[i]).shape == i && swarm@[i].fresh(
                    config.min_speed as int,
                    config.max_speed as int,
                    config.min_energy as int,
                    config.max_energy as int,
                ),
    {
        let mut agents: Vec<Fly> = Vec::new();
        let mut i: usize = 0;
        while i < config.agent_count
            invariant
                i <= config.agent_count,
                agents.len() == i,
                config.wf(),
                forall|k: int|
                    0 <= k < i ==> (#[trigger] agents[k]).wf() && agents[k].shape == k
                        && agents[k]@.fresh(
                        config.min_speed as int,
                        config.max_speed as int,
                        config.min_energy as int,
                        config.max_energy as int,
                    ),
            decreases config.agent_count - i,
        {
            let fly = Fly::new(
                i,
                config.min_speed,
                config.max_speed,
                config.min_energy,
                config.max_energy,
            );
            agents.push(fly);
            i += 1;
        }
        Swarm { agents, config }
    }

    /// The settings that the swarm was made with.
    pub fn config(&self) -> (config: &Config)
        ensures
            *config == self.settings(),
    {
        &self.config
    }

    /// How many flies there are.
    pub fn len(&self) -> (count: usize)
        ensures
            count == self@.len(),
    {
        self.agents.len()
    }

    /// Tests [`Swarm::has_headroom`]. Where it holds, a tick fits.
    pub fn can_step(&self) -> (ok: bool)
        requires
            self.wf(),
        ensures
            ok == self.has_headroom(),
            ok ==> step_fits(self@, self.settings()@),
    {
        let count: usize = self.agents.len();
        let boost: i64 = self.config.coupling_boost;
        proof {
            lemma_boosts_fit(count as int, boost as int);
        }
        let limit: i128 = i64::MAX as i128 - (count as i128) * (boost as i128);
        if (GLOW_THRESHOLD as i128) > limit {
            return false;
        }
        let mut i: usize = 0;
        while i < count
            invariant
                i <= count,
                count == self.agents.len(),
                limit == energy_limit(count as int, self.settings().coupling_boost as int),
                forall|k: int| 0 <= k < i ==> (#[trigger] self@[k]).energy <= limit,
            decreases count - i,
        {
            if self.agents[i].energy as i128 > limit {
                assert(self@[i as int].energy > limit);
                return false;
            }
            i += 1;
        }
        proof {
            lemma_headroom_suffices(self@, self.settings()@);
        }
        true
    }

    /// The flash of the fly at `source`: every other fly within the coupling
    /// radius of it receives the boost.
    fn flash(&mut self, source: usize)
        requires
            source < old(self)@.len(),
            old(self).settings().coupling_boost >= 0,
            forall|j: int|
                0 <= j < old(self)@.len() ==> (#[trigger] coupled(
                    old(self)@,
                    source as int,
                    old(self).settings()@.coupling_radius,
                    old(self).settings()@.coupling_boost,
                )[j]).energy <= i64::MAX,
        ensures
            final(self)@ == coupled(
                old(self)@,
                source as int,
                old(self).settings()@.coupling_radius,
                old(self).settings()@.coupling_boost,
            ),
            final(self).settings() == old(self).settings(),
    {
        let count: usize = self.agents.len();
        let origin: Vector2 = self.agents[source].position;
        let radius: i64 = self.config.coupling_radius;
        let boost: i64 = self.config.coupling_boost;
        let ghost lit = coupled(self@, source as int, radius as int, boost as int);
        assert(lit == coupled(
            old(self)@,
            source as int,
            old(self).settings()@.coupling_radius,
            old(self).settings()@.coupling_boost,
        ));
        let mut j: usize = 0;
        while j < count
            invariant
                j <= count,
                count == self.agents.len(),
                count == old(self).agents.len(),
                source < count,
                boost >= 0,
                self.config == old(self).config,
                origin == old(self).agents[source as int].position,
                lit == coupled(old(self)@, source as int, radius as int, boost as int),
                forall|k: int| 0 <= k < count ==> (#[trigger] lit[k]).energy <= i64::MAX,
                forall|k: int| 0 <= k < j ==> (#[trigger] self.agents[k])@ == lit[k],
                forall|k: int| j <= k < count ==> #[trigger] self.agents[k] == old(self).agents[k],
            decreases count - j,
        {
            if j != source && origin.within(&self.agents[j].position, radius) {
                assert(lit[j as int] == old(self).agents[j as int]@.boosted(boost as int));
                self.agents[j].receive_coupling_energy(boost);
            }
            j += 1;
        }
        assert(self@ =~= lit);
    }

    /// The turn of the fly at `index`: it moves, its charge cycle advances,
    /// and if that lit it up, it flashes.
    fn take_turn(&mut self, index: usize, half_extent: i64)
        requires
            old(self).wf(),
            index < old(self)@.len(),
            half_extent == old(self).settings()@.half_extent,
            forall|j: int|
                0 <= j < old(self)@.len() ==> (#[trigger] turn_taken(
                    old(self)@,
                    old(self).settings()@,
                    index as int,
                )[j]).energy <= i64::MAX,
        ensures
            final(self)@ == turn_taken(old(self)@, old(self).settings()@, index as int),
            final(self).settings() == old(self).settings(),
            final(self).wf(),
    {
        let charge_rate: i64 = self.config.charge_rate;
        let discharge_rate: i64 = self.config.discharge_rate;
        assert(self@[index as int].reversible());
        self.agents[index].advance_motion(half_extent);
        let fired: bool = self.agents[index].tick_energy(charge_rate, discharge_rate);
        assert(self@ =~= old(self)@.update(
            index as int,
            old(self)@[index as int].moved(half_extent as int).ticked(
                charge_rate as int,
                discharge_rate as int,
            ),
        ));
        assert forall|i: int| 0 <= i < self@.len() implies (#[trigger] self@[i]).reversible() by {
            assert(old(self)@[i].reversible());
        }
        if fired {
            assert(turn_taken(old(self)@, old(self).settings()@, index as int) == coupled(
                self@,
                index as int,
                self.settings()@.coupling_radius,
                self.settings()@.coupling_boost,
            ));
            self.flash(index);
        }
    }

    /// One tick of the swarm: every fly takes its turn, in order.
    pub fn step(&mut self)
        requires
            old(self).wf(),
            step_fits(old(self)@, old(self).settings()@),
        ensures
            final(self)@ == swarm_stepped(old(self)@, old(self).settings()@),
            final(self)@.len() == old(self)@.len(),
            final(self).settings() == old(self).settings(),
            final(self).wf(),
    {
        let count: usize = self.agents.len();
        let half_extent: i64 = self.config.half_extent();
        let mut i: usize = 0;
        while i < count
            invariant
                i <= count,
                count == self@.len(),
                count == old(self)@.len(),
                self.wf(),
                self.settings() == old(self).settings(),
                half_extent == self.settings()@.half_extent,
                step_fits(old(self)@, old(self).settings()@),
                self@ == after_turns(old(self)@, old(self).settings()@, i as nat),
            decreases count - i,
        {
            assert(after_turns(old(self)@, old(self).settings()@, (i + 1) as nat) == turn_taken(
                self@,
                self.settings()@,
                i as int,
            ));
            self.take_turn(i, half_extent);
            i += 1;
        }
    }

    /// The flies, in the order in which they take their turns.
    pub fn agents(&self) -> (flies: &Vec<Fly>)
        ensures
            states_of(flies@) == self@,
    {
        &self.agents
    }
}

} // verus!
