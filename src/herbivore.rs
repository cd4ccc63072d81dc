//! Prey: grazes from a shared fodder budget.
use vstd::prelude::*;
use crate::rules::{
    curve_ok, fitness_at, fitness_from_curve, scale_weight, scaled, FITNESS_SCALE, WEIGHT_SCALE,
};

verus! {

/// A prey animal. `weight` is in thousandths of a unit, `fitness` in
/// millionths; `fitness` is only meaningful right after a recompute.
#[derive(Debug, PartialEq, Eq)]
pub struct Herbivore {
    pub weight: i64,
    pub age: u32,
    pub fitness: u32,
}

impl Herbivore {
    /// Mean birth weight, in thousandths of a unit.
    pub const W_BIRTH: i64 = 10000;
    /// Standard deviation of the birth weight, in thousandths of a unit.
    pub const SIGMA_BIRTH: i64 = 4000;
    /// Species constant `mu`, in thousandths.
    pub const MU: i64 = 17000;
    /// Growth rate, in thousandths.
    pub const BETA: u16 = 50;
    /// Yearly metabolic loss rate, in thousandths.
    pub const ETA: u16 = 200;
    /// Age at which the age factor is one half, in thousandths of a year.
    pub const A_HALF: i64 = 2500;
    /// Steepness of the age factor, in thousandths.
    pub const PHI_AGE: i64 = 5000;
    /// Weight at which the weight factor is one half, in thousandths of a unit.
    pub const W_HALF: i64 = 3000;
    /// Steepness of the weight factor, in thousandths.
    pub const PHI_WEIGHT: i64 = 90;
    /// Procreation propensity, in thousandths.
    pub const GAMMA: u16 = 900;
    /// Procreation weight multiplier, in thousandths.
    pub const ZETA: i64 = 220;
    /// Birth cost factor: share of the baby's weight charged to the mother, in thousandths.
    pub const XI: u16 = 420;
    /// Death propensity, in thousandths.
    pub const OMEGA: u16 = 400;
    /// Intake capacity per feeding, in whole units.
    pub const F: u16 = 20;
    /// Fitness difference at which a predation attempt always succeeds, in whole fitness units.
    pub const DELTA_PHI_MAX: u8 = 10;
    /// Cells moved per migration.
    pub const STRIDE: u8 = 1;
    /// Minimum weight for procreation, in thousandths of a unit:
    /// `ZETA * (W_BIRTH + SIGMA_BIRTH)`.
    pub const PROCREATE: i64 = 3080;

    /// Adds `food` whole units to the weight.
    pub fn gain_weight(&mut self, food: u16)
        requires
            old(self).weight + food * WEIGHT_SCALE <= i64::MAX,
        ensures
            final(self).weight == old(self).weight + food * WEIGHT_SCALE,
            final(self).age == old(self).age,
            final(self).fitness == old(self).fitness,
    {
        self.weight = self.weight + (food as i64) * WEIGHT_SCALE;
    }

    /// One more year of age.
    pub fn aging(&mut self)
        requires
            old(self).age < u32::MAX,
        ensures
            final(self).age == old(self).age + 1,
            final(self).weight == old(self).weight,
            final(self).fitness == old(self).fitness,
    {
        self.age = self.age + 1;
    }

    /// Loses the yearly share `ETA` of the weight; fitness is left stale.
    pub fn lose_weight_year(&mut self)
        ensures
            final(self).weight == old(self).weight - scaled(
                old(self).weight as int,
                Herbivore::ETA as int,
            ),
            final(self).age == old(self).age,
            final(self).fitness == old(self).fitness,
    {
        let loss = scale_weight(self.weight, Herbivore::ETA);
        proof {
            assert(0 <= scaled(self.weight as int, 200) <= self.weight || self.weight <= scaled(
                self.weight as int,
                200,
            ) <= 0) by (nonlinear_arith);
        }
        self.weight = (self.weight as i128 - loss) as i64;
    }

    /// Charges the mother `XI` times the baby's weight, if she weighs more
    /// than that, and then recomputes her fitness. Otherwise nothing changes.
    pub fn lose_weight_birth<Q: Fn(u32, i64) -> (u32, u32)>(
        &mut self,
        baby_weight: i64,
        curve: &Q,
    ) -> (r: bool)
        requires
            baby_weight >= 0,
            curve_ok(*curve),
        ensures
            r == (old(self).weight > scaled(baby_weight as int, Herbivore::XI as int)),
            r ==> final(self).weight == old(self).weight - scaled(
                baby_weight as int,
                Herbivore::XI as int,
            ),
            r ==> final(self).age == old(self).age,
            r ==> fitness_from_curve(*curve, final(self).age, final(self).weight, final(self).fitness),
            !r ==> *final(self) == *old(self),
    {
        let charge = scale_weight(baby_weight, Herbivore::XI);
        if (self.weight as i128) > charge {
            self.weight = (self.weight as i128 - charge) as i64;
            self.calculate_fitness(curve);
            true
        } else {
            false
        }
    }

    /// Recomputes fitness from the curve at the current age and weight.
    pub fn calculate_fitness<Q: Fn(u32, i64) -> (u32, u32)>(&mut self, curve: &Q)
        requires
            curve_ok(*curve),
        ensures
            final(self).weight == old(self).weight,
            final(self).age == old(self).age,
            fitness_from_curve(*curve, old(self).age, old(self).weight, final(self).fitness),
            final(self).fitness <= FITNESS_SCALE,
            old(self).weight <= 0 ==> final(self).fitness == 0,
    {
        self.fitness = fitness_at(curve, self.age, self.weight);
    }

    /// Eats `min(F, available_fodder)` units and returns that amount, for the
    /// fodder pool to be debited.
    pub fn graze(&mut self, available_fodder: u16) -> (r: u16)
        requires
            old(self).weight + Herbivore::F * WEIGHT_SCALE <= i64::MAX,
        ensures
            r == if available_fodder >= Herbivore::F {
                Herbivore::F
            } else {
                available_fodder
            },
            final(self).weight == old(self).weight + r * WEIGHT_SCALE,
            final(self).age == old(self).age,
            final(self).fitness == old(self).fitness,
    {
        if available_fodder >= Herbivore::F {
            self.gain_weight(Herbivore::F);
            Herbivore::F
        } else {
            self.gain_weight(available_fodder);
            available_fodder
        }
    }
}

} // verus!
