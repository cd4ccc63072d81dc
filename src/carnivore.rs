//! Predators: hunt a list of prey.
use vstd::prelude::*;
use rand::Rng;
use rand::rngs::ThreadRng;
use crate::herbivore::Herbivore;
use crate::rules::{
    curve_ok, fitness_at, fitness_from_curve, scale_weight, scaled, FITNESS_SCALE, WEIGHT_SCALE,
};

verus! {

#[verifier::external_type_specification]
#[verifier::external_body]
pub struct ExThreadRng(ThreadRng);

/// Relies on rand's `Rng::gen_range` over `0..FITNESS_SCALE`: a value in that
/// range (the range is not empty, so the call does not panic).
#[verifier::external_body]
fn draw_uniform(rng: &mut ThreadRng) -> (r: u32)
    ensures
        r < FITNESS_SCALE,
{
    rng.gen_range(0..FITNESS_SCALE)
}

/// A predator animal. `weight` is in thousandths of a unit, `fitness` in
/// millionths; `fitness` is only meaningful right after a recompute.
#[derive(Debug, PartialEq, Eq)]
pub struct Carnivore {
    pub weight: i64,
    pub age: u32,
    pub fitness: u32,
}

/// A prey's weight in whole units, rounded toward zero, as a `u16`
/// (non-positive weights count as zero, large ones as `u16::MAX`).
pub open spec fn whole_units(weight: i64) -> int {
    if weight <= 0 {
        0
    } else if weight / WEIGHT_SCALE > u16::MAX {
        u16::MAX as int
    } else {
        weight / WEIGHT_SCALE
    }
}

/// Chance, in millionths, that a predator of fitness `predator` kills a prey
/// of fitness `prey`: none if the prey is at least as fit, certain once the
/// difference reaches `DELTA_PHI_MAX`, linear in between.
pub open spec fn kill_chance(predator: int, prey: int) -> int {
    if predator <= prey {
        0
    } else if predator - prey >= (Carnivore::DELTA_PHI_MAX as int) * (FITNESS_SCALE as int) {
        FITNESS_SCALE as int
    } else {
        (predator - prey) / (Carnivore::DELTA_PHI_MAX as int)
    }
}

/// The hunt from position `i` of `prey`, with `room` units of appetite left and
/// `draws[j]` the uniform draw (in millionths) for the prey at position `j`.
/// Gives the weight eaten and the prey from `i` on that survive, in order.
/// A kill that fills the appetite ends the hunt: that prey is still removed,
/// and the ones after it are untouched.
pub open spec fn hunt(prey: Seq<Herbivore>, fitness: int, draws: Seq<u32>, i: int, room: int) -> (
    int,
    Seq<Herbivore>,
)
    decreases prey.len() - i,
{
    if i >= prey.len() {
        (0, Seq::empty())
    } else if (draws[i] as int) < kill_chance(fitness, prey[i].fitness as int) {
        let w = whole_units(prey[i].weight);
        if w < room {
            let rest = hunt(prey, fitness, draws, i + 1, room - w);
            (w + rest.0, rest.1)
        } else {
            (room, prey.subrange(i + 1, prey.len() as int))
        }
    } else {
        let rest = hunt(prey, fitness, draws, i + 1, room);
        (rest.0, seq![prey[i]] + rest.1)
    }
}

/// A predator that is no fitter than any prey in the list kills nothing,
/// whatever the draws: it eats nothing and the list keeps every prey, in order.
pub proof fn predation_spares_fitter_prey(prey: Seq<Herbivore>, fitness: int, draws: Seq<u32>, room: int)
    requires
        forall|j: int| 0 <= j < prey.len() ==> fitness <= #[trigger] prey[j].fitness,
    ensures
        hunt(prey, fitness, draws, 0, room) == (0int, prey),
{
    spared_from(prey, fitness, draws, 0, room);
    assert(prey.subrange(0, prey.len() as int) =~= prey);
}

proof fn spared_from(prey: Seq<Herbivore>, fitness: int, draws: Seq<u32>, i: int, room: int)
    requires
        0 <= i <= prey.len(),
        forall|j: int| 0 <= j < prey.len() ==> fitness <= #[trigger] prey[j].fitness,
    ensures
        hunt(prey, fitness, draws, i, room) == (0int, prey.subrange(i, prey.len() as int)),
    decreases prey.len() - i,
{
    if i < prey.len() {
        spared_from(prey, fitness, draws, i + 1, room);
        assert(seq![prey[i]] + prey.subrange(i + 1, prey.len() as int) =~= prey.subrange(
            i,
            prey.len() as int,
        ));
    } else {
        assert(prey.subrange(i, prey.len() as int) =~= Seq::<Herbivore>::empty());
    }
}

/// One hunt never eats more than the appetite it starts with, and never a
/// negative amount, whatever the prey and the draws.
pub proof fn predation_within_capacity(prey: Seq<Herbivore>, fitness: int, draws: Seq<u32>, room: int)
    requires
        room >= 0,
    ensures
        0 <= hunt(prey, fitness, draws, 0, room).0 <= room,
{
    within_capacity_from(prey, fitness, draws, 0, room);
}

proof fn within_capacity_from(prey: Seq<Herbivore>, fitness: int, draws: Seq<u32>, i: int, room: int)
    requires
        room >= 0,
    ensures
        0 <= hunt(prey, fitness, draws, i, room).0 <= room,
    decreases prey.len() - i,
{
    if i < prey.len() {
        let w = whole_units(prey[i].weight);
        if w < room {
            within_capacity_from(prey, fitness, draws, i + 1, room - w);
        }
        within_capacity_from(prey, fitness, draws, i + 1, room);
    }
}

/// Exec form of `whole_units`.
fn whole_units_of(weight: i64) -> (r: u16)
    ensures
        r as int == whole_units(weight),
{
    if weight <= 0 {
        0
    } else {
        let u: u64 = (weight as u64) / (WEIGHT_SCALE as u64);
        if u > 65535 {
            65535
        } else {
            u as u16
        }
    }
}

/// Kill probability in millionths for a predator of fitness `predator`
/// against a prey of fitness `prey` (both in millionths).
pub fn kill_probability(predator: u32, prey: u32) -> (r: u32)
    ensures
        r as int == kill_chance(predator as int, prey as int),
        r <= FITNESS_SCALE,
{
    if predator <= prey {
        0
    } else {
        let diff: u32 = predator - prey;
        if (diff as u64) >= (Carnivore::DELTA_PHI_MAX as u64) * (FITNESS_SCALE as u64) {
            FITNESS_SCALE
        } else {
            diff / (Carnivore::DELTA_PHI_MAX as u32)
        }
    }
}

impl Carnivore {
    /// Mean birth weight, in thousandths of a unit.
    pub const W_BIRTH: i64 = 6000;
    /// Standard deviation of the birth weight, in thousandths of a unit.
    pub const SIGMA_BIRTH: i64 = 1000;
    /// Species constant `mu`, in thousandths.
    pub const MU: i64 = 400;
    /// Growth rate, in thousandths.
    pub const BETA: u16 = 600;
    /// Yearly metabolic loss rate, in thousandths.
    pub const ETA: u16 = 125;
    /// Age at which the age factor is one half, in thousandths of a year.
    pub const A_HALF: i64 = 40000;
    /// Steepness of the age factor, in thousandths.
    pub const PHI_AGE: i64 = 450;
    /// Weight at which the weight factor is one half, in thousandths of a unit.
    pub const W_HALF: i64 = 4000;
    /// Steepness of the weight factor, in thousandths.
    pub const PHI_WEIGHT: i64 = 280;
    /// Procreation propensity, in thousandths.
    pub const GAMMA: u16 = 800;
    /// Procreation weight multiplier, in thousandths.
    pub const ZETA: i64 = 3500;
    /// Birth cost factor: share of the baby's weight charged to the mother, in thousandths.
    pub const XI: u16 = 1100;
    /// Death propensity, in thousandths.
    pub const OMEGA: u16 = 300;
    /// Intake capacity per feeding, in whole units.
    pub const F: u16 = 70;
    /// Fitness difference at which a predation attempt always succeeds, in whole fitness units.
    pub const DELTA_PHI_MAX: u8 = 10;
    /// Cells moved per migration.
    pub const STRIDE: u8 = 3;
    /// Minimum weight for procreation, in thousandths of a unit:
    /// `ZETA * (W_BIRTH + SIGMA_BIRTH)`.
    pub const PROCREATE: i64 = 24500;

    /// Adds `food` whole units to the weight.
    pub fn gain_weight(&mut self, food: u16)
        requires
            old(self).weight + food * WEIGHT_SCALE <= i64::MAX,
        ensures
            final(self).weight == old(self).weight + food * WEIGHT_SCALE,
            final(self).age == old(self).age,
            final(self).fitness == old(self).fitness,
    {
        self.weight = self.weight + (food as i64) * WEIGHT_SCALE;
    }

    /// One more year of age.
    pub fn aging(&mut self)
        requires
            old(self).age < u32::MAX,
        ensures
            final(self).age == old(self).age + 1,
            final(self).weight == old(self).weight,
            final(self).fitness == old(self).fitness,
    {
        self.age = self.age + 1;
    }

    /// Loses the yearly share `ETA` of the weight; fitness is left stale.
    pub fn lose_weight_year(&mut self)
        ensures
            final(self).weight == old(self).weight - scaled(
                old(self).weight as int,
                Carnivore::ETA as int,
            ),
            final(self).age == old(self).age,
            final(self).fitness == old(self).fitness,
    {
        let loss = scale_weight(self.weight, Carnivore::ETA);
        proof {
            assert(0 <= scaled(self.weight as int, 200) <= self.weight || self.weight <= scaled(
                self.weight as int,
                200,
            ) <= 0) by (nonlinear_arith);
        }
        self.weight = (self.weight as i128 - loss) as i64;
    }

    /// Charges the mother `XI` times the baby's weight, if she weighs more
    /// than that, and then recomputes her fitness. Otherwise nothing changes.
    pub fn lose_weight_birth<Q: Fn(u32, i64) -> (u32, u32)>(
        &mut self,
        baby_weight: i64,
        curve: &Q,
    ) -> (r: bool)
        requires
            baby_weight >= 0,
            curve_ok(*curve),
        ensures
            r == (old(self).weight > scaled(baby_weight as int, Carnivore::XI as int)),
            r ==> final(self).weight == old(self).weight - scaled(
                baby_weight as int,
                Carnivore::XI as int,
            ),
            r ==> final(self).age == old(self).age,
            r ==> fitness_from_curve(*curve, final(self).age, final(self).weight, final(self).fitness),
            !r ==> *final(self) == *old(self),
    {
        let charge = scale_weight(baby_weight, Carnivore::XI);
        if (self.weight as i128) > charge {
            self.weight = (self.weight as i128 - charge) as i64;
            self.calculate_fitness(curve);
            true
        } else {
            false
        }
    }

    /// Recomputes fitness from the curve at the current age and weight.
    pub fn calculate_fitness<Q: Fn(u32, i64) -> (u32, u32)>(&mut self, curve: &Q)
        requires
            curve_ok(*curve),
        ensures
            final(self).weight == old(self).weight,
            final(self).age == old(self).age,
            fitness_from_curve(*curve, old(self).age, old(self).weight, final(self).fitness),
            final(self).fitness <= FITNESS_SCALE,
            old(self).weight <= 0 ==> final(self).fitness == 0,
    {
        self.fitness = fitness_at(curve, self.age, self.weight);
    }

    /// Hunts `herbivores` in list order with the given draws, one per prey
    /// (`draws[j]` for the prey at position `j`, in millionths). Each killed
    /// prey is removed and eaten, up to the intake capacity `F`; the kill that
    /// fills the capacity ends the hunt. Returns the weight gained, in whole
    /// units.
    pub fn predation_with_draws(&mut self, draws: &Vec<u32>, herbivores: &mut Vec<Herbivore>) -> (r: u16)
        requires
            draws.len() >= old(herbivores).len(),
            old(self).weight + Carnivore::F * WEIGHT_SCALE <= i64::MAX,
        ensures
            r as int == hunt(old(herbivores)@, old(self).fitness as int, draws@, 0, Carnivore::F as int).0,
            final(herbivores)@ == hunt(old(herbivores)@, old(self).fitness as int, draws@, 0, Carnivore::F as int).1,
            r <= Carnivore::F,
            final(self).weight == old(self).weight + r * WEIGHT_SCALE,
            final(self).age == old(self).age,
            final(self).fitness == old(self).fitness,
    {
        let ghost start = herbivores@;
        let ghost fit = self.fitness as int;
        let ghost cap = Carnivore::F as int;
        let n = herbivores.len();
        let mut i: usize = 0;
        let mut k: usize = 0;
        let mut eaten: u16 = 0;
        while i < n
            invariant
                start == old(herbivores)@,
                old(self).weight + Carnivore::F * WEIGHT_SCALE <= i64::MAX,
                n == start.len(),
                draws.len() >= n,
                k <= i <= n,
                herbivores@.len() == k + (n - i),
                herbivores@.subrange(k as int, herbivores@.len() as int) == start.subrange(i as int, n as int),
                eaten <= Carnivore::F,
                fit == old(self).fitness,
                cap == Carnivore::F,
                self.weight == old(self).weight + eaten * WEIGHT_SCALE,
                self.age == old(self).age,
                self.fitness == old(self).fitness,
                hunt(start, fit, draws@, 0, cap).0 == eaten + hunt(start, fit, draws@, i as int, cap - eaten).0,
                hunt(start, fit, draws@, 0, cap).1 == herbivores@.subrange(0, k as int) + hunt(start, fit, draws@, i as int, cap - eaten).1,
            decreases n - i,
        {
            let ghost cur = herbivores@;
            let ghost tail = hunt(start, fit, draws@, i as int + 1, cap - eaten);
            assert(cur[k as int] == start[i as int]) by {
                assert(cur.subrange(k as int, cur.len() as int)[0] == start.subrange(i as int, n as int)[0]);
            }
            let prey_fitness = herbivores[k].fitness;
            let prey_weight = herbivores[k].weight;
            let chance = kill_probability(self.fitness, prey_fitness);
            if draws[i] < chance {
                let rest: u16 = Carnivore::F - eaten;
                let w = whole_units_of(prey_weight);
                herbivores.remove(k);
                assert(herbivores@.subrange(0, k as int) == cur.subrange(0, k as int));
                assert(herbivores@.subrange(k as int, herbivores@.len() as int) == start.subrange(i as int + 1, n as int)) by {
                    assert(herbivores@.subrange(k as int, herbivores@.len() as int) =~= cur.subrange(k as int, cur.len() as int).subrange(1, cur.len() - k));
                    assert(start.subrange(i as int + 1, n as int) =~= start.subrange(i as int, n as int).subrange(1, n - i));
                }
                if w < rest {
                    proof {
                        assert((eaten as int) * 1000 + (w as int) * 1000 <= (cap as int) * 1000)
                            by (nonlinear_arith)
                            requires
                                eaten + w <= cap,
                        ;
                    }
                    self.gain_weight(w);
                    eaten = eaten + w;
                    i = i + 1;
                } else {
                    assert(hunt(start, fit, draws@, i as int, cap - eaten) == (cap - eaten, start.subrange(i as int + 1, n as int)));
                    assert((eaten as int) * 1000 + (rest as int) * 1000 == (cap as int) * 1000) by (nonlinear_arith)
                        requires
                            rest == cap - eaten,
                    ;
                    self.gain_weight(rest);
                    assert(herbivores@ =~= herbivores@.subrange(0, k as int) + start.subrange(i as int + 1, n as int));
                    return Carnivore::F;
                }
            } else {
                assert(cur.subrange(0, k as int + 1) =~= cur.subrange(0, k as int) + seq![start[i as int]]);
                assert(cur.subrange(0, k as int) + (seq![start[i as int]] + tail.1) =~= cur.subrange(0, k as int + 1) + tail.1);
                assert(cur.subrange(k as int + 1, cur.len() as int) =~= start.subrange(i as int + 1, n as int)) by {
                    assert(cur.subrange(k as int + 1, cur.len() as int) =~= cur.subrange(k as int, cur.len() as int).subrange(1, cur.len() - k));
                    assert(start.subrange(i as int + 1, n as int) =~= start.subrange(i as int, n as int).subrange(1, n - i));
                }
                k = k + 1;
                i = i + 1;
            }
        }
        assert(herbivores@.subrange(0, k as int) =~= herbivores@);
        assert(hunt(start, fit, draws@, i as int, cap - eaten).1 =~= Seq::<Herbivore>::empty());
        eaten
    }

    /// Hunts `herbivores` in list order, drawing one uniform value per prey
    /// from `rng`; see `predation_with_draws`. Returns the weight gained, in
    /// whole units, never more than `F`.
    pub fn predation(&mut self, rng: &mut ThreadRng, herbivores: &mut Vec<Herbivore>) -> (r: u16)
        requires
            old(self).weight + Carnivore::F * WEIGHT_SCALE <= i64::MAX,
        ensures
            exists|draws: Seq<u32>|
                {
                    &&& draws.len() == old(herbivores).len()
                    &&& forall|j: int| 0 <= j < draws.len() ==> #[trigger] draws[j] < FITNESS_SCALE
                    &&& r as int == hunt(old(herbivores)@, old(self).fitness as int, draws, 0, Carnivore::F as int).0
                    &&& final(herbivores)@ == hunt(old(herbivores)@, old(self).fitness as int, draws, 0, Carnivore::F as int).1
                },
            r <= Carnivore::F,
            final(self).weight == old(self).weight + r * WEIGHT_SCALE,
            final(self).age == old(self).age,
            final(self).fitness == old(self).fitness,
    {
        let n = herbivores.len();
        let mut draws: Vec<u32> = Vec::new();
        while draws.len() < n
            invariant
                draws.len() <= n,
                forall|j: int| 0 <= j < draws.len() ==> #[trigger] draws@[j] < FITNESS_SCALE,
            decreases n - draws.len(),
        {
            let d = draw_uniform(rng);
            draws.push(d);
        }
        self.predation_with_draws(&draws, herbivores)
    }
}

} // verus!
