use ecosim_animals::carnivore::kill_probability;
use ecosim_animals::{Carnivore, Herbivore, FITNESS_SCALE, WEIGHT_SCALE};

fn logistic(x: f64) -> f64 {
    1.0 / (1.0 + x.exp())
}

fn to_millionths(x: f64) -> u32 {
    (x * FITNESS_SCALE as f64) as u32
}

fn herbivore_curve(age: u32, weight: i64) -> (u32, u32) {
    let q_pos = logistic(5.0 * (age as f64 - 2.5));
    let q_neg = logistic(-0.09 * (weight as f64 / WEIGHT_SCALE as f64 - 3.0));
    (to_millionths(q_pos), to_millionths(q_neg))
}

fn carnivore_curve(age: u32, weight: i64) -> (u32, u32) {
    let q_pos = logistic(0.45 * (age as f64 - 40.0));
    let q_neg = logistic(-0.28 * (weight as f64 / WEIGHT_SCALE as f64 - 4.0));
    (to_millionths(q_pos), to_millionths(q_neg))
}

fn half_curve(_age: u32, _weight: i64) -> (u32, u32) {
    (500_000, 500_000)
}

fn herbivore(weight: i64, age: u32, fitness: u32) -> Herbivore {
    Herbivore { weight, age, fitness }
}

fn carnivore(weight: i64, age: u32, fitness: u32) -> Carnivore {
    Carnivore { weight, age, fitness }
}

#[test]
fn fitness_zero_for_zero_weight() {
    for age in [0u32, 1, 5, 100] {
        let mut h = herbivore(0, age, 123);
        h.calculate_fitness(&herbivore_curve);
        assert_eq!(h.fitness, 0);
        let mut c = carnivore(0, age, 123);
        c.calculate_fitness(&carnivore_curve);
        assert_eq!(c.fitness, 0);
    }
}

#[test]
fn fitness_zero_for_negative_weight() {
    let mut h = herbivore(-5_000, 3, 999);
    h.calculate_fitness(&half_curve);
    assert_eq!(h.fitness, 0);
    assert_eq!(h.weight, -5_000);
    assert_eq!(h.age, 3);
}

#[test]
fn fitness_is_product_of_factors() {
    let mut h = herbivore(1, 0, 0);
    h.calculate_fitness(&half_curve);
    assert_eq!(h.fitness, 250_000);
}

#[test]
fn fitness_non_decreasing_in_weight() {
    let mut last = 0u32;
    for units in 1..200i64 {
        let mut h = herbivore(units * WEIGHT_SCALE, 4, 0);
        h.calculate_fitness(&herbivore_curve);
        assert!(h.fitness >= last);
        assert!(h.fitness > 0 && h.fitness < FITNESS_SCALE);
        last = h.fitness;
    }
}

#[test]
fn fitness_scenario_prey_weight_fifty_age_two() {
    let mut h = herbivore(50 * WEIGHT_SCALE, 2, 0);
    h.calculate_fitness(&herbivore_curve);
    let (q_pos, q_neg) = herbivore_curve(2, 50 * WEIGHT_SCALE);
    assert!((q_pos as i64 - 924_000).abs() < 1_000);
    assert_eq!(h.fitness as u64, q_pos as u64 * q_neg as u64 / 1_000_000);
    assert!((h.fitness as f64 / FITNESS_SCALE as f64 - 0.914).abs() < 0.005);
}

#[test]
fn graze_plenty_eats_capacity() {
    let mut h = herbivore(10_000, 1, 7);
    assert_eq!(h.graze(300), Herbivore::F);
    assert_eq!(h.weight, 10_000 + 20 * WEIGHT_SCALE);
    assert_eq!(h.fitness, 7);
    let mut h = herbivore(10_000, 1, 7);
    assert_eq!(h.graze(20), 20);
    assert_eq!(h.weight, 30_000);
}

#[test]
fn graze_scarce_eats_all_available() {
    let mut h = herbivore(10_000, 1, 7);
    assert_eq!(h.graze(13), 13);
    assert_eq!(h.weight, 23_000);
    let mut h = herbivore(10_000, 1, 7);
    assert_eq!(h.graze(0), 0);
    assert_eq!(h.weight, 10_000);
}

#[test]
fn aging_adds_one_year() {
    let mut h = herbivore(10_000, 4, 7);
    h.aging();
    assert_eq!(h.age, 5);
    let mut c = carnivore(10_000, 0, 7);
    c.aging();
    assert_eq!(c.age, 1);
}

#[test]
fn gain_weight_adds_whole_units() {
    let mut c = carnivore(1_500, 2, 9);
    c.gain_weight(3);
    assert_eq!(c.weight, 4_500);
}

#[test]
fn yearly_loss_uses_eta() {
    let mut h = herbivore(50_000, 2, 11);
    h.lose_weight_year();
    assert_eq!(h.weight, 40_000);
    assert_eq!(h.fitness, 11);
    let mut c = carnivore(8_000, 2, 11);
    c.lose_weight_year();
    assert_eq!(c.weight, 7_000);
    let mut c = carnivore(-8_000, 2, 11);
    c.lose_weight_year();
    assert_eq!(c.weight, -7_000);
    let mut h = herbivore(7, 0, 0);
    h.lose_weight_year();
    assert_eq!(h.weight, 6);
}

#[test]
fn birth_refused_leaves_mother_unchanged() {
    let mut h = herbivore(4_200, 3, 77);
    assert!(!h.lose_weight_birth(10_000, &herbivore_curve));
    assert_eq!(h, herbivore(4_200, 3, 77));
    let mut c = carnivore(5_000, 3, 77);
    assert!(!c.lose_weight_birth(6_000, &carnivore_curve));
    assert_eq!(c, carnivore(5_000, 3, 77));
}

#[test]
fn birth_charges_mother_and_refreshes_fitness() {
    let mut h = herbivore(30_000, 3, 77);
    assert!(h.lose_weight_birth(10_000, &half_curve));
    assert_eq!(h.weight, 30_000 - 4_200);
    assert_eq!(h.age, 3);
    assert_eq!(h.fitness, 250_000);
    let mut c = carnivore(40_000, 5, 1);
    assert!(c.lose_weight_birth(6_000, &carnivore_curve));
    assert_eq!(c.weight, 40_000 - 6_600);
    let (q_pos, q_neg) = carnivore_curve(5, 33_400);
    assert_eq!(c.fitness as u64, q_pos as u64 * q_neg as u64 / 1_000_000);
}

#[test]
fn kill_probability_values() {
    assert_eq!(kill_probability(500_000, 500_000), 0);
    assert_eq!(kill_probability(400_000, 500_000), 0);
    assert_eq!(kill_probability(900_000, 100_000), 80_000);
    assert_eq!(kill_probability(20_000_000, 0), FITNESS_SCALE);
    assert_eq!(kill_probability(10_000_000, 0), FITNESS_SCALE);
}

#[test]
fn predation_by_weaker_predator_changes_nothing() {
    let mut c = carnivore(20_000, 4, 300_000);
    let prey = vec![
        herbivore(30_000, 1, 300_000),
        herbivore(50_000, 2, 600_000),
        herbivore(40_000, 3, 900_000),
    ];
    let mut list = vec![
        herbivore(30_000, 1, 300_000),
        herbivore(50_000, 2, 600_000),
        herbivore(40_000, 3, 900_000),
    ];
    let mut rng = rand::thread_rng();
    assert_eq!(c.predation(&mut rng, &mut list), 0);
    assert_eq!(list, prey);
    assert_eq!(c.weight, 20_000);
}

#[test]
fn predation_saturates_on_second_prey() {
    let mut c = carnivore(10_000, 4, 20_000_000);
    let mut list = vec![
        herbivore(30_000, 1, 0),
        herbivore(50_000, 2, 0),
        herbivore(40_000, 3, 0),
    ];
    let mut rng = rand::thread_rng();
    assert_eq!(c.predation(&mut rng, &mut list), 70);
    assert_eq!(list, vec![herbivore(40_000, 3, 0)]);
    assert_eq!(c.weight, 10_000 + 70 * WEIGHT_SCALE);
}

#[test]
fn predation_never_exceeds_capacity() {
    let mut c = carnivore(10_000, 4, 20_000_000);
    let mut list: Vec<Herbivore> = (0..10).map(|i| herbivore(25_500 + i, 1, 0)).collect();
    let mut rng = rand::thread_rng();
    let eaten = c.predation(&mut rng, &mut list);
    assert_eq!(eaten, Carnivore::F);
    assert!(eaten <= Carnivore::F);
    assert_eq!(list.len(), 7);
    assert_eq!(list[0].weight, 25_503);
    assert_eq!(c.weight, 10_000 + 70 * WEIGHT_SCALE);
}

#[test]
fn predation_with_given_draws() {
    let mut c = carnivore(0, 4, 900_000);
    let mut list = vec![
        herbivore(10_999, 1, 100_000),
        herbivore(20_000, 2, 100_000),
        herbivore(5_000, 3, 950_000),
        herbivore(12_000, 4, 0),
    ];
    // chance against the first two is 80 000, against the last 90 000
    let draws = vec![79_999, 80_000, 0, 89_999];
    assert_eq!(c.predation_with_draws(&draws, &mut list), 22);
    assert_eq!(list, vec![herbivore(20_000, 2, 100_000), herbivore(5_000, 3, 950_000)]);
    assert_eq!(c.weight, 22 * WEIGHT_SCALE);
    assert_eq!(c.fitness, 900_000);
}

#[test]
fn predation_on_empty_list() {
    let mut c = carnivore(1_000, 4, 900_000);
    let mut list: Vec<Herbivore> = Vec::new();
    let mut rng = rand::thread_rng();
    assert_eq!(c.predation(&mut rng, &mut list), 0);
    assert!(list.is_empty());
}

#[test]
fn predation_draws_are_uniform() {
    // Against fitness-zero prey of no weight the chance is one half; every
    // kill is eaten for nothing, so the hunt goes through the whole list.
    let mut c = carnivore(1_000, 4, 5_000_000);
    let mut list: Vec<Herbivore> = (0..400).map(|_| herbivore(0, 1, 0)).collect();
    let mut rng = rand::thread_rng();
    assert_eq!(c.predation(&mut rng, &mut list), 0);
    assert!(list.len() > 100 && list.len() < 300);
}
