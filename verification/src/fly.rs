//! One firefly: its state, its motion and its charge cycle.

use vstd::prelude::*;
use crate::boundary::{reflect, reflected};
use crate::random::{draw_in_range, draw_with_ratio, thread_generator};
use crate::units::{CHARGE_CEILING, GLOW_THRESHOLD, ONE};
use crate::vector::{Point, Vector2};

verus! {

/// What a [`Fly`] stands for in contracts: the same record over unbounded
/// integers.
pub struct FlyState {
    pub shape: usize,
    pub position: Point,
    pub velocity: Point,
    pub energy: int,
    pub glowing: bool,
}

impl FlyState {
    /// The fly after it has moved by its velocity between walls at
    /// `-half_extent` and `half_extent`, each axis on its own.
    pub open spec fn moved(self, half_extent: int) -> FlyState {
        let along_x = reflected(self.position.x, self.velocity.x, half_extent);
        let along_y = reflected(self.position.y, self.velocity.y, half_extent);
        FlyState {
            position: Point { x: along_x.0, y: along_y.0 },
            velocity: Point { x: along_x.1, y: along_y.1 },
            ..self
        }
    }

    /// Whether the next tick lights the fly up: it is dark, still below the
    /// charge ceiling, and one more charge takes it above the glow threshold.
    pub open spec fn fires(self, charge_rate: int) -> bool {
        !self.glowing && self.energy <= CHARGE_CEILING && self.energy + charge_rate
            > GLOW_THRESHOLD
    }

    /// Whether the next tick puts the fly out: it glows, its energy is not
    /// negative, and one more discharge takes it below zero.
    pub open spec fn fades(self, discharge_rate: int) -> bool {
        self.glowing && self.energy >= 0 && self.energy - discharge_rate < 0
    }

    /// The fly after one tick of its charge cycle.
    ///
    /// A dark fly at or below the charge ceiling gains `charge_rate`; if that
    /// takes it above the glow threshold it is clamped to the threshold and
    /// starts to glow. A glowing fly with non-negative energy loses
    /// `discharge_rate`; if that takes it below zero it is clamped to zero and
    /// goes dark. Any other fly stays as it is.
    pub open spec fn ticked(self, charge_rate: int, discharge_rate: int) -> FlyState {
        if !self.glowing {
            if self.energy > CHARGE_CEILING {
                self
            } else if self.energy + charge_rate > GLOW_THRESHOLD {
                FlyState { energy: GLOW_THRESHOLD as int, glowing: true, ..self }
            } else {
                FlyState { energy: self.energy + charge_rate, ..self }
            }
        } else {
            if self.energy < 0 {
                self
            } else if self.energy - discharge_rate < 0 {
                FlyState { energy: 0, glowing: false, ..self }
            } else {
                FlyState { energy: self.energy - discharge_rate, ..self }
            }
        }
    }

    /// Whether each component of the velocity can change sign within 64 bits.
    pub open spec fn reversible(self) -> bool {
        self.velocity.x > i64::MIN && self.velocity.y > i64::MIN
    }

    /// The fly after a neighbour has handed it `amount` of energy. Nothing is
    /// clamped here.
    pub open spec fn boosted(self, amount: int) -> FlyState {
        FlyState { energy: self.energy + amount, ..self }
    }

    /// One whole tick of a fly that no neighbour reaches: it moves, then its
    /// charge cycle advances.
    pub open spec fn stepped(self, half_extent: int, charge_rate: int, discharge_rate: int)
        -> FlyState {
        self.moved(half_extent).ticked(charge_rate, discharge_rate)
    }

    /// The fly after `count` ticks in which no neighbour reaches it.
    pub open spec fn after_steps(
        self,
        half_extent: int,
        charge_rate: int,
        discharge_rate: int,
        count: nat,
    ) -> FlyState
        decreases count,
    {
        if count == 0 {
            self
        } else {
            self.stepped(half_extent, charge_rate, discharge_rate).after_steps(
                half_extent,
                charge_rate,
                discharge_rate,
                (count - 1) as nat,
            )
        }
    }
}

/// One firefly.
///
/// `shape` is a handle to the geometry that the renderer draws for this fly;
/// nothing here reads or changes it.
#[derive(Clone, Copy, PartialEq, Eq, Structural, Debug)]
pub struct Fly {
    pub shape: usize,
    /// The centre of the fly.
    pub position: Vector2,
    /// The displacement per tick.
    pub velocity: Vector2,
    /// The charge that the fly has gathered.
    pub energy: i64,
    pub glowing: bool,
}

impl View for Fly {
    type V = FlyState;

    open spec fn view(&self) -> FlyState {
        FlyState {
            shape: self.shape,
            position: self.position@,
            velocity: self.velocity@,
            energy: self.energy as int,
            glowing: self.glowing,
        }
    }
}

/// What chance decides of a new fly.
#[derive(Clone, Copy, PartialEq, Eq, Structural, Debug)]
pub struct Draws {
    /// The speed along the x axis.
    pub speed_x: i64,
    /// Whether the fly starts out towards larger x.
    pub positive_x: bool,
    /// The speed along the y axis.
    pub speed_y: i64,
    /// Whether the fly starts out towards larger y.
    pub positive_y: bool,
    pub x: i64,
    pub y: i64,
    pub energy: i64,
}

/// Whether a velocity component has a magnitude drawn from
/// `min_speed..max_speed`.
pub open spec fn speed_in_range(velocity: int, min_speed: int, max_speed: int) -> bool {
    min_speed <= velocity < max_speed || min_speed <= -velocity < max_speed
}

impl FlyState {
    /// Whether the fly may have come out of [`Fly::new`]: it is dark, it
    /// stands in the world, and its speeds and its energy lie in the ranges
    /// they were drawn from.
    pub open spec fn fresh(
        self,
        min_speed: int,
        max_speed: int,
        min_energy: int,
        max_energy: int,
    ) -> bool {
        &&& !self.glowing
        &&& -ONE <= self.position.x < ONE
        &&& -ONE <= self.position.y < ONE
        &&& speed_in_range(self.velocity.x, min_speed, max_speed)
        &&& speed_in_range(self.velocity.y, min_speed, max_speed)
        &&& min_energy <= self.energy < max_energy
    }
}

impl Fly {
    /// The dark fly that the given draws describe: it stands at `(x, y)`,
    /// holds `energy`, and moves along each axis with the drawn speed, in the
    /// drawn direction.
    pub fn from_draws(shape: usize, draws: Draws) -> (fly: Fly)
        requires
            draws.speed_x > i64::MIN,
            draws.speed_y > i64::MIN,
        ensures
            fly.wf(),
            fly.shape == shape,
            fly.position == (Vector2 { x: draws.x, y: draws.y }),
            fly.velocity.x == if draws.positive_x {
                draws.speed_x as int
            } else {
                -draws.speed_x
            },
            fly.velocity.y == if draws.positive_y {
                draws.speed_y as int
            } else {
                -draws.speed_y
            },
            fly.energy == draws.energy,
            !fly.glowing,
    {
        let speed_x: i64 = if draws.positive_x {
            draws.speed_x
        } else {
            -draws.speed_x
        };
        let speed_y: i64 = if draws.positive_y {
            draws.speed_y
        } else {
            -draws.speed_y
        };
        Fly {
            shape,
            position: Vector2 { x: draws.x, y: draws.y },
            velocity: Vector2 { x: speed_x, y: speed_y },
            energy: draws.energy,
            glowing: false,
        }
    }

    /// A new fly at a random place of the world, dark, with a random energy
    /// from `min_energy..max_energy` and, along each axis, a random speed from
    /// `min_speed..max_speed` in a random direction.
    pub fn new(
        shape: usize,
        min_speed: i64,
        max_speed: i64,
        min_energy: i64,
        max_energy: i64,
    ) -> (fly: Fly)
        requires
            i64::MIN < min_speed < max_speed,
            min_energy < max_energy,
        ensures
            fly.wf(),
            fly.shape == shape,
            fly@.fresh(min_speed as int, max_speed as int, min_energy as int, max_energy as int),
    {
        let mut generator = thread_generator();
        let speed_x: i64 = draw_in_range(&mut generator, min_speed, max_speed);
        let positive_x: bool = draw_with_ratio(&mut generator, 1, 2);
        let speed_y: i64 = draw_in_range(&mut generator, min_speed, max_speed);
        let positive_y: bool = draw_with_ratio(&mut generator, 1, 2);
        let x: i64 = draw_in_range(&mut generator, -ONE, ONE);
        let y: i64 = draw_in_range(&mut generator, -ONE, ONE);
        let energy: i64 = draw_in_range(&mut generator, min_energy, max_energy);
        Fly::from_draws(shape, Draws { speed_x, positive_x, speed_y, positive_y, x, y, energy })
    }

    /// A fly is well formed when each component of its velocity can change
    /// sign, that is, when neither is `i64::MIN`.
    pub open spec fn wf(&self) -> bool {
        self@.reversible()
    }

    /// Tests [`Fly::wf`].
    pub fn is_well_formed(&self) -> (ok: bool)
        ensures
            ok == self.wf(),
    {
        self.velocity.x > i64::MIN && self.velocity.y > i64::MIN
    }

    /// Moves the fly by its velocity. A coordinate that reaches or passes a
    /// wall is put on the wall, and the velocity along that axis changes sign.
    pub fn advance_motion(&mut self, half_extent: i64)
        requires
            old(self).wf(),
            half_extent > i64::MIN,
        ensures
            final(self)@ == old(self)@.moved(half_extent as int),
            final(self).wf(),
            half_extent >= 0 ==> -half_extent <= final(self).position.x <= half_extent,
            half_extent >= 0 ==> -half_extent <= final(self).position.y <= half_extent,
    {
        let along_x: (i64, i64) = reflect(self.position.x, self.velocity.x, half_extent);
        let along_y: (i64, i64) = reflect(self.position.y, self.velocity.y, half_extent);
        self.position = Vector2 { x: along_x.0, y: along_y.0 };
        self.velocity = Vector2 { x: along_x.1, y: along_y.1 };
    }

    /// Whether the energy that a tick leaves the fly with fits in 64 bits. It
    /// always does when neither rate is negative.
    pub open spec fn tick_fits(&self, charge_rate: i64, discharge_rate: i64) -> bool {
        i64::MIN <= self@.ticked(charge_rate as int, discharge_rate as int).energy <= i64::MAX
    }

    /// Advances the charge cycle by one tick and tells whether the fly lit up
    /// in this very tick.
    pub fn tick_energy(&mut self, charge_rate: i64, discharge_rate: i64) -> (fired: bool)
        requires
            old(self).tick_fits(charge_rate, discharge_rate),
        ensures
            final(self)@ == old(self)@.ticked(charge_rate as int, discharge_rate as int),
            fired == old(self)@.fires(charge_rate as int),
            fired ==> final(self).glowing && final(self).energy == GLOW_THRESHOLD,
            old(self)@.fades(discharge_rate as int) ==> !final(self).glowing && final(self).energy
                == 0,
            final(self).wf() == old(self).wf(),
    {
        if !self.glowing {
            if self.energy <= CHARGE_CEILING {
                let charged: i128 = self.energy as i128 + charge_rate as i128;
                if charged > GLOW_THRESHOLD as i128 {
                    self.energy = GLOW_THRESHOLD;
                    self.glowing = true;
                    return true;
                }
                self.energy = charged as i64;
            }
        } else if self.energy >= 0 {
            let drained: i128 = self.energy as i128 - discharge_rate as i128;
            if drained < 0 {
                self.energy = 0;
                self.glowing = false;
            } else {
                self.energy = drained as i64;
            }
        }
        false
    }

    /// Adds `amount` to the energy, whatever the fly is doing. Nothing is
    /// clamped here: the fly's own next tick does that.
    pub fn receive_coupling_energy(&mut self, amount: i64)
        requires
            i64::MIN <= old(self).energy + amount <= i64::MAX,
        ensures
            final(self)@ == old(self)@.boosted(amount as int),
            final(self).wf() == old(self).wf(),
    {
        self.energy = self.energy + amount;
    }
}

} // verus!
