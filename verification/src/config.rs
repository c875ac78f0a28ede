//! The settings of a simulation, fixed for its lifetime.

use vstd::prelude::*;
use crate::boundary::{half_extent, half_extent_of, lemma_product_bounds};
use crate::units::ONE;

verus! {

/// The part of the settings that governs a tick, as the contracts see it.
pub struct Dynamics {
    /// The walls stand at `-half_extent` and `half_extent` on both axes.
    pub half_extent: int,
    /// What a dark fly gains per tick.
    pub charge_rate: int,
    /// What a glowing fly loses per tick.
    pub discharge_rate: int,
    /// How far the flash of a fly reaches.
    pub coupling_radius: int,
    /// What a fly gains from the flash of a neighbour.
    pub coupling_boost: int,
}

impl Dynamics {
    /// The walls enclose at least the origin, and no rate or boost is
    /// negative.
    pub open spec fn wf(self) -> bool {
        &&& self.half_extent >= 0
        &&& self.charge_rate >= 0
        &&& self.discharge_rate >= 0
        &&& self.coupling_boost >= 0
    }
}

/// The settings of a simulation. Lengths, speeds and energies are in
/// fixed-point units.
#[derive(Clone, Copy, PartialEq, Eq, Structural, Debug)]
pub struct Config {
    /// How many flies a swarm is spawned with.
    pub agent_count: usize,
    /// The visual radius of a fly, before scaling.
    pub radius: i64,
    /// The scale at which flies are drawn.
    pub scale: i64,
    /// How many corners the outline of a fly has. Whoever builds the shapes
    /// reads this; nothing here does.
    pub complexity: i32,
    pub coupling_radius: i64,
    pub charge_rate: i64,
    pub discharge_rate: i64,
    pub coupling_boost: i64,
    /// The speed of a new fly along each axis is drawn from
    /// `min_speed..max_speed`.
    pub min_speed: i64,
    pub max_speed: i64,
    /// The energy of a new fly is drawn from `min_energy..max_energy`.
    pub min_energy: i64,
    pub max_energy: i64,
    /// The shortest time between two frames, in milliseconds.
    pub tick_interval_ms: u64,
}

impl View for Config {
    type V = Dynamics;

    open spec fn view(&self) -> Dynamics {
        Dynamics {
            half_extent: half_extent_of(self.radius as int, self.scale as int),
            charge_rate: self.charge_rate as int,
            discharge_rate: self.discharge_rate as int,
            coupling_radius: self.coupling_radius as int,
            coupling_boost: self.coupling_boost as int,
        }
    }
}

impl Config {
    /// The settings are valid when radius and scale are not negative and
    /// leave room between the walls, no rate or boost is negative, and both
    /// ranges that new flies are drawn from are non-empty, the speeds being
    /// non-negative.
    pub open spec fn wf(&self) -> bool {
        &&& self.radius >= 0
        &&& self.scale >= 0
        &&& self@.wf()
        &&& 0 <= self.min_speed < self.max_speed
        &&& self.min_energy < self.max_energy
    }

    /// Tests [`Config::wf`].
    pub fn is_valid(&self) -> (ok: bool)
        ensures
            ok == self.wf(),
    {
        if self.radius < 0 || self.scale < 0 {
            return false;
        }
        proof {
            lemma_product_bounds(self.radius as int, self.scale as int);
        }
        let margin: i128 = (self.radius as i128 * self.scale as i128) / (ONE as i128);
        margin <= ONE as i128 && self.charge_rate >= 0 && self.discharge_rate >= 0
            && self.coupling_boost >= 0 && 0 <= self.min_speed && self.min_speed < self.max_speed
            && self.min_energy < self.max_energy
    }

    /// The distance from the origin to the walls: `1 - radius * scale`.
    pub fn half_extent(&self) -> (extent: i64)
        requires
            self.wf(),
        ensures
            extent == self@.half_extent,
            0 <= extent <= ONE,
    {
        half_extent(self.radius, self.scale)
    }
}

impl Default for Config {
    /// A swarm of 2500 flies of radius `0.1` and 20 corners, drawn at scale
    /// `0.05`, which charge by `1` and discharge by `10` per tick, and whose
    /// flash lifts every fly within `0.09` by `5`. New flies move by
    /// `0.0000001` to `0.00023` per tick along each axis and start with an
    /// energy below `100`. Frames are at least 8 ms apart.
    fn default() -> (config: Config)
        ensures
            config.wf(),
            config == (Config {
                agent_count: 2500,
                radius: 100_000_000,
                scale: 50_000_000,
                complexity: 20,
                coupling_radius: 90_000_000,
                charge_rate: 1_000_000_000,
                discharge_rate: 10_000_000_000,
                coupling_boost: 5_000_000_000,
                min_speed: 100,
                max_speed: 230_000,
                min_energy: 0,
                max_energy: 100_000_000_000,
                tick_interval_ms: 8,
            }),
            config@.half_extent == 995_000_000,
    {
        Config {
            agent_count: 2500,
            radius: 100_000_000,
            scale: 50_000_000,
            complexity: 20,
            coupling_radius: 90_000_000,
            charge_rate: 1_000_000_000,
            discharge_rate: 10_000_000_000,
            coupling_boost: 5_000_000_000,
            min_speed: 100,
            max_speed: 230_000,
            min_energy: 0,
            max_energy: 100_000_000_000,
            tick_interval_ms: 8,
        }
    }
}

} // verus!
