use dots::action::Action;
use dots::coord::Coord;
use dots::direction::Direction;
use dots::dna::Dna;
use dots::dots::{Dot, Life, AGE_STEP, GROWTH_INTERVAL_MS, VITALITY_MAX};
use dots::effect::Effect;

fn c(x: i64, y: i64) -> Coord {
    Coord { x, y }
}

fn sample_dna() -> Dna {
    let w: u64 = 1 | (2 << 6) | (63 << 12) | (0xFF << 18) | (0x01 << 26) | (0x80 << 34);
    Dna::new([w, 7])
}

#[test]
fn seeding_a_bare_dormant_agent_then_zero_energy() {
    let g = sample_dna();
    let mut d = Dot::new(c(4, 4), None, 0);
    assert!(d.apply_effect(Effect::SEED(g)).is_none());
    assert_eq!(d.dna(), Some(g));
    assert_eq!(d.energy, 0);
    let before = d;
    let out = d.apply_effect(Effect::ENERGY(0, Some([10, 20, 30]), None));
    assert!(out.is_none());
    assert_eq!(d.dna(), before.dna());
    assert_eq!(d.energy, before.energy);
    assert_eq!(d.age, before.age);
    assert_eq!(d.pos, before.pos);
    assert!(!d.is_alive());
}

#[test]
fn an_alive_agent_ignores_seeds() {
    let g1 = Dna::new([0x1111, 0x2222]);
    let g2 = Dna::new([0x3333, 0x4444]);
    let g3 = Dna::new([0x5555, 0x6666]);
    let mut d = Dot::new(c(1, 1), None, 800);
    d.apply_effect_with(Effect::SEED(g1), [0, 0], 0);
    assert_eq!(d.dna(), Some(g1));
    d.apply_effect_with(Effect::SEED(g2), [u64::MAX, 0], 42);
    assert!(d.is_alive());
    assert_eq!(d.dna(), Some(Dna::new([0x1111, 0x4444])));
    assert!(matches!(d.life, Life::Alive(_, 42)));
    d.apply_effect(Effect::SEED(g3));
    assert_eq!(d.dna(), Some(Dna::new([0x1111, 0x4444])));
    assert_eq!(d.energy, 800);
}

#[test]
fn a_dormant_agent_takes_the_seed_exactly() {
    let g = Dna::new([0xABCD, 0xEF01]);
    let mut d = Dot::new(c(1, 1), None, 300);
    d.apply_effect(Effect::SEED(g));
    assert_eq!(d.dna(), Some(g));
    assert_eq!(d.energy, 300);
}

#[test]
fn energy_stays_within_bounds() {
    let mut d = Dot::new(c(0, 0), None, 500);
    for _ in 0..5 {
        d.apply_effect(Effect::ENERGY(400, None, None));
        assert!(d.energy <= VITALITY_MAX);
    }
    assert_eq!(d.energy, VITALITY_MAX);
    d.apply_effect(Effect::ENERGY(i32::MIN, None, None));
    assert_eq!(d.energy, 0);
    d.apply_effect(Effect::ENERGY(i32::MAX, Some([u16::MAX; 3]), None));
    assert_eq!(d.energy, VITALITY_MAX);
}

#[test]
fn energy_to_a_dormant_agent_is_taken_whole_and_returned() {
    let mut d = Dot::new(c(3, 2), None, 500);
    let out = d.apply_effect(Effect::ENERGY(-100, None, Some(c(2, 2))));
    assert_eq!(d.energy, 400);
    assert!(matches!(out, Some((Coord { x: 2, y: 2 }, Effect::ENERGY(100, None, None)))));
}

#[test]
fn clamping_limits_the_reciprocal() {
    let mut d = Dot::new(c(3, 2), None, 30);
    let out = d.apply_effect(Effect::ENERGY(-100, None, Some(c(2, 2))));
    assert_eq!(d.energy, 0);
    assert!(matches!(out, Some((_, Effect::ENERGY(30, None, None)))));
    let mut e = Dot::new(c(3, 2), None, 950);
    let out = e.apply_effect(Effect::ENERGY(100, None, Some(c(2, 2))));
    assert_eq!(e.energy, 1000);
    assert!(matches!(out, Some((_, Effect::ENERGY(-50, None, None)))));
}

#[test]
fn energy_is_weighed_by_colour_and_mask() {
    // colours 65, 66, 127: weight (65 + 66 + 127) * 256 = 66048 of 195840
    let mut d = Dot::new(c(3, 2), Some(sample_dna()), 500);
    let out = d.apply_effect(Effect::ENERGY(-100, None, Some(c(2, 2))));
    assert_eq!(d.energy, 467);
    assert!(matches!(out, Some((_, Effect::ENERGY(33, None, None)))));
    // mask (128, 0, 0): weight 65 * 128 = 8320; 1000 * 8320 / 195840 = 42
    let mut e = Dot::new(c(3, 2), Some(sample_dna()), 500);
    e.apply_effect(Effect::ENERGY(1000, Some([128, 0, 0]), None));
    assert_eq!(e.energy, 542);
}

#[test]
fn dormant_agents_regrow_up_to_full() {
    let mut d = Dot::new(c(0, 0), None, 990);
    let (delay, out) = d.tick_with(Action::SEED, Direction::EAST);
    assert_eq!(delay, GROWTH_INTERVAL_MS);
    assert!(out.is_none());
    assert_eq!(d.energy, 995);
    d.tick();
    assert_eq!(d.energy, 1000);
    d.tick();
    assert_eq!(d.energy, 1000);
}

#[test]
fn living_agents_age_and_lose_vitality() {
    let mut d = Dot::new(c(5, 5), Some(sample_dna()), 500);
    let (delay, out) = d.tick_with(Action::IDLE, Direction::NORTH);
    assert_eq!(delay, GROWTH_INTERVAL_MS);
    assert!(out.is_none());
    assert_eq!(d.age, AGE_STEP);
    assert_eq!(d.energy, 495);
    d.tick_with(Action::IDLE, Direction::NORTH);
    assert_eq!(d.age, 10);
    assert_eq!(d.energy, 485);
}

#[test]
fn an_agent_out_of_vitality_turns_dormant() {
    let mut d = Dot::new(c(5, 5), Some(sample_dna()), 4);
    let (delay, out) = d.tick_with(Action::SEED, Direction::NORTH);
    assert_eq!(delay, GROWTH_INTERVAL_MS);
    assert!(out.is_none());
    assert_eq!(d.dna(), None);
    assert_eq!(d.energy, 0);
    assert_eq!(d.age, 0);
}

#[test]
fn an_alive_agent_ticks_at_its_reaction_interval() {
    let mut d = Dot::new(c(5, 5), Some(sample_dna()), 900);
    d.apply_effect_with(Effect::SEED(sample_dna()), [0, 0], 17);
    let (delay, _) = d.tick_with(Action::IDLE, Direction::NORTH);
    assert_eq!(delay, 17);
}

#[test]
fn acting_emits_one_effect_to_a_neighbour() {
    let g = sample_dna();
    let d = Dot::new(c(2, 2), Some(g), 900);
    assert!(d.act_with(Action::IDLE, Direction::EAST).is_none());
    match d.act_with(Action::DIGEST, Direction::EAST) {
        Some((to, Effect::ENERGY(delta, Some(mask), Some(origin)))) => {
            assert_eq!(to, c(3, 2));
            assert_eq!(delta, -100);
            assert_eq!(mask, [255, 1, 128]);
            assert_eq!(origin, c(2, 2));
        }
        _ => panic!("digesting must emit an energy effect"),
    }
    match d.act_with(Action::SEED, Direction::NORTHWEST) {
        Some((to, Effect::SEED(s))) => {
            assert_eq!(to, c(1, 1));
            assert_eq!(s, g);
        }
        _ => panic!("seeding must emit a seed"),
    }
    match d.act_with(Action::SEED, Direction::SOUTH) {
        Some((to, _)) => assert_eq!(to, c(2, 3)),
        None => panic!("seeding must emit a seed"),
    }
    for _ in 0..50 {
        if let Some((to, _)) = d.act() {
            assert!((to.x - 2).abs() <= 1 && (to.y - 2).abs() <= 1 && to != c(2, 2));
        }
    }
}

#[test]
fn describe_shows_dormant_white_and_living_in_colour() {
    let d = Dot::new(c(7, 8), None, 500);
    assert_eq!(d.describe(), ((7, 8), ([255, 255, 255], 750)));
    let e = Dot::new(c(7, 8), Some(sample_dna()), 600);
    assert_eq!(e.describe(), ((7, 8), ([65, 66, 127], 600)));
}

#[test]
fn draining_an_agent_with_a_genome_makes_it_dormant() {
    let mut d = Dot::new(c(3, 2), Some(sample_dna()), 10);
    d.tick_with(Action::IDLE, Direction::NORTH);
    assert_eq!(d.age, AGE_STEP);
    let out = d.apply_effect(Effect::ENERGY(-1_000_000, None, Some(c(2, 2))));
    assert_eq!(d.energy, 0);
    assert_eq!(d.dna(), None);
    assert_eq!(d.age, 0);
    assert!(matches!(out, Some((_, Effect::ENERGY(5, None, None)))));
}

#[test]
fn an_agent_already_without_vitality_keeps_its_genome_under_energy() {
    let g = sample_dna();
    let mut d = Dot::new(c(3, 2), Some(g), 0);
    d.apply_effect(Effect::ENERGY(-100, None, None));
    assert_eq!(d.energy, 0);
    assert_eq!(d.dna(), Some(g));
}
