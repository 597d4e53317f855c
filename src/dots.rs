use crate::action::Action;
use crate::coord::Coord;
use crate::direction::Direction;
use crate::dna::{color_of, digest_of, is_crossover, recombine, Dna, COLOR_SCALE, MASK_SCALE};
use crate::effect::Effect;
use crate::random::{random_byte, random_words};
use vstd::prelude::*;

verus! {

/// Full vitality: vitality is kept in thousandths, within `0..=VITALITY_MAX`.
pub const VITALITY_MAX: u32 = 1000;

/// How much a genome-carrying agent ages on each of its ticks.
pub const AGE_STEP: u32 = 5;

/// How much vitality a dormant agent regrows on each of its ticks.
pub const REGROWTH_STEP: u32 = 5;

/// Vitality that a digesting agent tries to take from its neighbour.
pub const DIGEST_AMOUNT: i32 = 100;

/// Tick interval, in milliseconds, of an agent without a reaction interval.
pub const GROWTH_INTERVAL_MS: u64 = 1020;

/// Denominator of the weight that scales an energy transfer: three channels,
/// each a colour over `COLOR_SCALE` times a mask over `MASK_SCALE`.
pub const WEIGHT_SCALE: i64 = 195840;

/// Where an agent is in its lifecycle.
#[derive(Clone, Copy, Debug)]
pub enum Life {
    /// No genome; vitality regrows slowly.
    Dormant,
    /// A genome taken from a first seed; the agent ages and acts at the
    /// growth interval, and a further seed recombines into it.
    Seeded(Dna),
    /// An established genome with its own reaction interval in
    /// milliseconds; further seeds are ignored.
    Alive(Dna, u8),
}

/// One cell-bound agent.
#[derive(Clone, Copy, Debug)]
pub struct Dot {
    pub pos: Coord,
    pub life: Life,
    /// Vitality, in thousandths.
    pub energy: u32,
    /// Age accumulated since the genome was taken, in thousandths.
    pub age: u32,
}

/// `x` clamped into `0..=VITALITY_MAX`.
pub open spec fn clamp_vitality(x: int) -> int {
    if x < 0 {
        0
    } else if x > VITALITY_MAX {
        VITALITY_MAX as int
    } else {
        x
    }
}

/// Mask channel `i` of an optional mask; no mask weighs every channel fully.
pub open spec fn mask_channel(mask: Option<[u16; 3]>, i: int) -> int {
    match mask {
        Some(m) => m[i] as int,
        None => MASK_SCALE as int,
    }
}

/// How much a genome with bits `seq` takes of a transfer under `mask`, over
/// [`WEIGHT_SCALE`].
pub open spec fn weight(seq: [u64; 2], mask: Option<[u16; 3]>) -> int {
    color_of(seq, 0) * mask_channel(mask, 0) + color_of(seq, 1) * mask_channel(mask, 1)
        + color_of(seq, 2) * mask_channel(mask, 2)
}

/// `delta * w / WEIGHT_SCALE`, rounded toward zero.
pub open spec fn scale_delta(delta: int, w: int) -> int {
    if delta >= 0 {
        delta * w / (WEIGHT_SCALE as int)
    } else {
        -((-delta) * w / (WEIGHT_SCALE as int))
    }
}

impl Dot {
    /// The agent's genome, if it has one.
    pub open spec fn genome(self) -> Option<Dna> {
        match self.life {
            Life::Dormant => None,
            Life::Seeded(g) => Some(g),
            Life::Alive(g, _) => Some(g),
        }
    }

    /// Vitality and age lie in `0..=VITALITY_MAX`, a dormant agent has no
    /// age, and one step from the agent's cell stays representable.
    pub open spec fn wf(self) -> bool {
        &&& self.energy <= VITALITY_MAX
        &&& self.age <= VITALITY_MAX
        &&& (self.life is Dormant ==> self.age == 0)
        &&& self.pos.steppable()
    }

    /// The transfer that an energy effect of `delta` under `mask` amounts to
    /// for this agent, before clamping: a dormant agent takes it whole, one
    /// with a genome weighs it by its colour against the mask.
    pub open spec fn effective_delta(self, delta: int, mask: Option<[u16; 3]>) -> int {
        match self.genome() {
            None => delta,
            Some(g) => scale_delta(delta, weight(g.seq, mask)),
        }
    }

    /// Vitality after an energy effect of `delta` under `mask`.
    pub open spec fn energy_after(self, delta: int, mask: Option<[u16; 3]>) -> int {
        clamp_vitality(self.energy + self.effective_delta(delta, mask))
    }

    /// Tick interval, in milliseconds, of an agent in this state.
    pub open spec fn interval(self) -> u64 {
        match self.life {
            Life::Alive(_, r) => r as u64,
            _ => GROWTH_INTERVAL_MS,
        }
    }

    /// The cell one step away in `direction`.
    pub open spec fn reach_spec(self, direction: Direction) -> Coord {
        Coord { x: (self.pos.x + direction.dx()) as i64, y: (self.pos.y + direction.dy()) as i64 }
    }
}

/// The agent after an energy effect of `delta` under `mask`: vitality moves
/// by the clamped effective transfer, and an agent with a genome that this
/// takes from some vitality to none turns dormant at once, losing genome and
/// age together with its vitality.
pub open spec fn energy_step(d: Dot, delta: int, mask: Option<[u16; 3]>) -> Dot {
    let e2 = d.energy_after(delta, mask);
    if d.genome() is Some && d.energy > 0 && e2 == 0 {
        Dot { life: Life::Dormant, energy: 0, age: 0, ..d }
    } else {
        Dot { energy: e2 as u32, ..d }
    }
}

/// The outcome of an energy effect: the agent takes the step of
/// [`energy_step`], and the origin, if any, is sent the opposite of the
/// change in vitality.
pub open spec fn energy_outcome(
    d: Dot,
    delta: i32,
    mask: Option<[u16; 3]>,
    origin: Option<Coord>,
    d2: Dot,
    out: Option<(Coord, Effect)>,
) -> bool {
    let e2 = d.energy_after(delta as int, mask);
    &&& d2 == energy_step(d, delta as int, mask)
    &&& match origin {
        Some(o) => out == Some((o, Effect::ENERGY((d.energy - e2) as i32, None, None))),
        None => out is None,
    }
}

/// The outcome of a seed of genome `g`: a dormant agent takes `g` as it is, a
/// seeded one becomes alive with the crossover of its genome and `g` under
/// `mask` and reaction interval `reaction_ms`, and an alive one is unchanged.
pub open spec fn seed_outcome(d: Dot, g: Dna, d2: Dot, mask: [u64; 2], reaction_ms: u8) -> bool {
    match d.life {
        Life::Dormant => d2 == Dot { life: Life::Seeded(g), ..d },
        Life::Seeded(mine) => {
            &&& d2.pos == d.pos
            &&& d2.energy == d.energy
            &&& d2.age == d.age
            &&& match d2.life {
                Life::Alive(child, r) => r == reaction_ms && is_crossover(
                    child.seq,
                    mine.seq,
                    g.seq,
                    mask,
                ),
                _ => false,
            }
        },
        Life::Alive(_, _) => d2 == d,
    }
}

/// The outcome of applying `e` to `d`, given the crossover mask and the
/// reaction interval that a recombining seed uses.
pub open spec fn effect_outcome(
    d: Dot,
    e: Effect,
    d2: Dot,
    out: Option<(Coord, Effect)>,
    mask: [u64; 2],
    reaction_ms: u8,
) -> bool {
    match e {
        Effect::ENERGY(delta, m, origin) => energy_outcome(d, delta, m, origin, d2, out),
        Effect::SEED(g) => out is None && seed_outcome(d, g, d2, mask, reaction_ms),
    }
}

/// What an agent with genome `g` emits for `action` towards `direction`:
/// idling emits nothing, digesting asks the neighbour for
/// [`DIGEST_AMOUNT`] under the genome's digestion mask with the agent's own
/// cell as origin, seeding sends the genome.
pub open spec fn act_outcome(
    d: Dot,
    g: Dna,
    action: Action,
    direction: Direction,
    out: Option<(Coord, Effect)>,
) -> bool {
    match action {
        Action::IDLE => out is None,
        Action::DIGEST => match out {
            Some((c, Effect::ENERGY(delta, Some(m), Some(o)))) => {
                &&& c == d.reach_spec(direction)
                &&& delta == -DIGEST_AMOUNT
                &&& o == d.pos
                &&& forall|i: int| 0 <= i < 3 ==> m[i] == #[trigger] digest_of(g.seq, i)
            },
            _ => false,
        },
        Action::SEED => out == Some((d.reach_spec(direction), Effect::SEED(g))),
    }
}

/// The outcome of one tick. An agent with a genome ages by [`AGE_STEP`] and
/// loses its age from its vitality; if that leaves none it turns dormant
/// (genome and age cleared at once), otherwise it acts. A dormant agent
/// regrows [`REGROWTH_STEP`] up to [`VITALITY_MAX`]. The delay is the
/// interval of the resulting state.
pub open spec fn tick_outcome(
    d: Dot,
    action: Action,
    direction: Direction,
    d2: Dot,
    delay_ms: u64,
    out: Option<(Coord, Effect)>,
) -> bool {
    &&& delay_ms == d2.interval()
    &&& match d.genome() {
        Some(g) => {
            let age = d.age + AGE_STEP;
            let e = clamp_vitality(d.energy - age);
            if e == 0 {
                d2 == Dot { life: Life::Dormant, energy: 0, age: 0, ..d } && out is None
            } else {
                d2 == Dot { energy: e as u32, age: age as u32, ..d } && act_outcome(
                    d,
                    g,
                    action,
                    direction,
                    out,
                )
            }
        },
        None => {
            &&& d2 == Dot {
                energy: if d.energy + REGROWTH_STEP > VITALITY_MAX {
                    VITALITY_MAX
                } else {
                    (d.energy + REGROWTH_STEP) as u32
                },
                ..d
            }
            &&& out is None
        },
    }
}

/// Whether some action and direction draw explains a tick from `d` to `d2`
/// with the given delay and emitted effect.
pub open spec fn tick_by_some_draw(d: Dot, d2: Dot, delay_ms: u64, out: Option<(Coord, Effect)>) -> bool {
    exists|action: Action, direction: Direction|
        tick_outcome(d, action, direction, d2, delay_ms, out)
}

/// How an agent shows: a dormant one white, at an intensity halfway between
/// its vitality and full; one with a genome in the genome's colour, at its
/// vitality.
pub open spec fn appearance(d: Dot, color: [u16; 3], intensity: u32) -> bool {
    match d.genome() {
        None => {
            &&& forall|i: int| 0 <= i < 3 ==> #[trigger] color[i] == COLOR_SCALE
            &&& intensity == (VITALITY_MAX + d.energy) / 2
        },
        Some(g) => {
            &&& forall|i: int| 0 <= i < 3 ==> #[trigger] color[i] == color_of(g.seq, i)
            &&& intensity == d.energy
        },
    }
}

impl Dot {
    /// An agent at `pos` with vitality `energy`: dormant without a genome,
    /// seeded with one.
    pub fn new(pos: Coord, dna: Option<Dna>, energy: u32) -> (r: Dot)
        requires
            energy <= VITALITY_MAX,
            pos.steppable(),
        ensures
            r.wf(),
            r.pos == pos,
            r.energy == energy,
            r.age == 0,
            r.genome() == dna,
            r.life !is Alive,
    {
        let life = match dna {
            Some(g) => Life::Seeded(g),
            None => Life::Dormant,
        };
        Dot { pos, life, energy, age: 0 }
    }

    /// The agent's genome, if it has one.
    pub fn dna(&self) -> (r: Option<Dna>)
        ensures
            r == self.genome(),
    {
        match self.life {
            Life::Dormant => None,
            Life::Seeded(g) => Some(g),
            Life::Alive(g, _) => Some(g),
        }
    }

    /// Whether the agent is established: it has a genome and its own
    /// reaction interval.
    pub fn is_alive(&self) -> (r: bool)
        ensures
            r == (self.life is Alive),
    {
        match self.life {
            Life::Alive(_, _) => true,
            _ => false,
        }
    }

    /// The cell one step away in `direction`.
    fn reach(&self, direction: Direction) -> (r: Coord)
        requires
            self.pos.steppable(),
        ensures
            r == self.reach_spec(direction),
    {
        let p = self.pos;
        match direction {
            Direction::NORTH => Coord { x: p.x, y: p.y - 1 },
            Direction::NORTHEAST => Coord { x: p.x + 1, y: p.y - 1 },
            Direction::EAST => Coord { x: p.x + 1, y: p.y },
            Direction::SOUTHEAST => Coord { x: p.x + 1, y: p.y + 1 },
            Direction::SOUTH => Coord { x: p.x, y: p.y + 1 },
            Direction::SOUTHWEST => Coord { x: p.x - 1, y: p.y + 1 },
            Direction::WEST => Coord { x: p.x - 1, y: p.y },
            Direction::NORTHWEST => Coord { x: p.x - 1, y: p.y - 1 },
        }
    }

    /// The effect, and its destination, that this agent emits for `action`
    /// towards `direction`.
    pub fn act_with(&self, action: Action, direction: Direction) -> (out: Option<(Coord, Effect)>)
        requires
            self.wf(),
            self.genome() is Some,
        ensures
            act_outcome(*self, self.genome().unwrap(), action, direction, out),
    {
        let g = match self.life {
            Life::Seeded(g) => g,
            Life::Alive(g, _) => g,
            Life::Dormant => {
                proof {
                    assert(false);
                }
                return None;
            },
        };
        match action {
            Action::IDLE => None,
            Action::DIGEST => {
                let p = g.phenotype();
                Some(
                    (
                        self.reach(direction),
                        Effect::ENERGY(0 - DIGEST_AMOUNT, Some(p.digest_mask), Some(self.pos)),
                    ),
                )
            },
            Action::SEED => Some((self.reach(direction), Effect::SEED(g))),
        }
    }

    /// Draws an action and a direction and emits what they call for.
    pub fn act(&self) -> (out: Option<(Coord, Effect)>)
        requires
            self.wf(),
            self.genome() is Some,
        ensures
            exists|action: Action, direction: Direction|
                act_outcome(*self, self.genome().unwrap(), action, direction, out),
    {
        let action = Action::random();
        let direction = Direction::random();
        self.act_with(action, direction)
    }
}

impl Dot {
    /// Vitality after an energy effect of `delta` under `mask`.
    fn energy_after_exec(&self, delta: i32, mask: Option<[u16; 3]>) -> (r: i64)
        requires
            self.wf(),
        ensures
            r == self.energy_after(delta as int, mask),
    {
        let eff: i64 = match self.dna() {
            None => delta as i64,
            Some(g) => {
                let p = g.phenotype();
                let (m0, m1, m2): (i64, i64, i64) = match mask {
                    Some(m) => (m[0] as i64, m[1] as i64, m[2] as i64),
                    None => (MASK_SCALE as i64, MASK_SCALE as i64, MASK_SCALE as i64),
                };
                assert(p.color[0] == color_of(g.seq, 0));
                assert(p.color[1] == color_of(g.seq, 1));
                assert(p.color[2] == color_of(g.seq, 2));
                assert(0 <= p.color[0] * m0 <= 255 * 65536) by (nonlinear_arith)
                    requires
                        p.color[0] <= 255,
                        0 <= m0 <= 65536,
                ;
                assert(0 <= p.color[1] * m1 <= 255 * 65536) by (nonlinear_arith)
                    requires
                        p.color[1] <= 255,
                        0 <= m1 <= 65536,
                ;
                assert(0 <= p.color[2] * m2 <= 255 * 65536) by (nonlinear_arith)
                    requires
                        p.color[2] <= 255,
                        0 <= m2 <= 65536,
                ;
                let w: i64 = p.color[0] as i64 * m0 + p.color[1] as i64 * m1 + p.color[2] as i64
                    * m2;
                assert(w == weight(g.seq, mask));
                let mag: i64 = if delta >= 0 {
                    delta as i64
                } else {
                    0 - delta as i64
                };
                assert(0 <= mag * w <= 2147483648 * (3 * 255 * 65536)) by (nonlinear_arith)
                    requires
                        0 <= mag <= 2147483648,
                        0 <= w <= 3 * 255 * 65536,
                ;
                let scaled: i64 = (mag * w) / WEIGHT_SCALE;
                if delta >= 0 {
                    scaled
                } else {
                    0 - scaled
                }
            },
        };
        let sum: i64 = self.energy as i64 + eff;
        if sum < 0 {
            0
        } else if sum > VITALITY_MAX as i64 {
            VITALITY_MAX as i64
        } else {
            sum
        }
    }

    /// Applies `effect`, with `mask` and `reaction_ms` standing for the
    /// crossover mask and reaction interval that a recombining seed uses, and
    /// returns the reciprocal effect that an energy effect with an origin
    /// sends back.
    pub fn apply_effect_with(&mut self, effect: Effect, mask: [u64; 2], reaction_ms: u8) -> (out:
        Option<(Coord, Effect)>)
        requires
            old(self).wf(),
        ensures
            final(self).wf(),
            final(self).pos == old(self).pos,
            effect_outcome(*old(self), effect, *final(self), out, mask, reaction_ms),
    {
        match effect {
            Effect::ENERGY(delta, m, origin) => {
                let before = self.energy;
                let after = self.energy_after_exec(delta, m);
                self.energy = after as u32;
                if after == 0 && before > 0 {
                    match self.life {
                        Life::Dormant => {},
                        _ => {
                            self.life = Life::Dormant;
                            self.age = 0;
                        },
                    }
                }
                match origin {
                    Some(o) => Some((o, Effect::ENERGY((before as i64 - after) as i32, None, None))),
                    None => None,
                }
            },
            Effect::SEED(g) => {
                match self.life {
                    Life::Dormant => {
                        self.life = Life::Seeded(Dna::new(g.seq));
                    },
                    Life::Seeded(mine) => {
                        self.life = Life::Alive(recombine(mine, g, mask), reaction_ms);
                    },
                    Life::Alive(_, _) => {},
                }
                None
            },
        }
    }

    /// Applies `effect`, drawing a fresh crossover mask and reaction interval
    /// when a seed recombines, and returns the reciprocal effect that an
    /// energy effect with an origin sends back.
    pub fn apply_effect(&mut self, effect: Effect) -> (out: Option<(Coord, Effect)>)
        requires
            old(self).wf(),
        ensures
            final(self).wf(),
            final(self).pos == old(self).pos,
            exists|mask: [u64; 2], reaction_ms: u8|
                effect_outcome(*old(self), effect, *final(self), out, mask, reaction_ms),
    {
        let recombines = match effect {
            Effect::SEED(_) => match self.life {
                Life::Seeded(_) => true,
                _ => false,
            },
            _ => false,
        };
        let mask = if recombines {
            random_words()
        } else {
            [0u64; 2]
        };
        let reaction_ms = if recombines {
            random_byte()
        } else {
            0u8
        };
        self.apply_effect_with(effect, mask, reaction_ms)
    }

    /// One tick with the given action and direction draws: returns the delay
    /// until the next tick, in milliseconds, and the effect emitted, if any.
    pub fn tick_with(&mut self, action: Action, direction: Direction) -> (r: (
        u64,
        Option<(Coord, Effect)>,
    ))
        requires
            old(self).wf(),
        ensures
            final(self).wf(),
            final(self).pos == old(self).pos,
            tick_outcome(*old(self), action, direction, *final(self), r.0, r.1),
    {
        let out = match self.dna() {
            Some(_) => {
                let age = self.age + AGE_STEP;
                if self.energy <= age {
                    self.life = Life::Dormant;
                    self.energy = 0;
                    self.age = 0;
                    None
                } else {
                    self.energy = self.energy - age;
                    self.age = age;
                    self.act_with(action, direction)
                }
            },
            None => {
                self.energy = if self.energy + REGROWTH_STEP > VITALITY_MAX {
                    VITALITY_MAX
                } else {
                    self.energy + REGROWTH_STEP
                };
                None
            },
        };
        let delay_ms = match self.life {
            Life::Alive(_, r) => r as u64,
            _ => GROWTH_INTERVAL_MS,
        };
        (delay_ms, out)
    }

    /// One tick with a freshly drawn action and direction.
    pub fn tick(&mut self) -> (r: (u64, Option<(Coord, Effect)>))
        requires
            old(self).wf(),
        ensures
            final(self).wf(),
            final(self).pos == old(self).pos,
            tick_by_some_draw(*old(self), *final(self), r.0, r.1),
    {
        let action = Action::random();
        let direction = Direction::random();
        self.tick_with(action, direction)
    }

    /// Where the agent is, its colour and its display intensity in
    /// thousandths.
    pub fn describe(&self) -> (r: ((i64, i64), ([u16; 3], u32)))
        requires
            self.wf(),
        ensures
            r.0 == (self.pos.x, self.pos.y),
            appearance(*self, r.1.0, r.1.1),
    {
        let look = match self.dna() {
            Some(g) => (g.phenotype().color, self.energy),
            None => (
                [COLOR_SCALE as u16, COLOR_SCALE as u16, COLOR_SCALE as u16],
                (VITALITY_MAX + self.energy) / 2,
            ),
        };
        ((self.pos.x, self.pos.y), look)
    }
}

/// The agent after energy effects with the given deltas and masks, applied
/// in order.
pub open spec fn after_energies(d: Dot, effects: Seq<(i32, Option<[u16; 3]>)>) -> Dot
    decreases effects.len(),
{
    if effects.len() == 0 {
        d
    } else {
        let (delta, mask) = effects.last();
        energy_step(after_energies(d, effects.drop_last()), delta as int, mask)
    }
}

/// Applying an effect keeps an agent well formed and in its cell.
pub proof fn lemma_effect_keeps_wf(
    d: Dot,
    e: Effect,
    d2: Dot,
    out: Option<(Coord, Effect)>,
    mask: [u64; 2],
    reaction_ms: u8,
)
    requires
        d.wf(),
        effect_outcome(d, e, d2, out, mask, reaction_ms),
    ensures
        d2.wf(),
        d2.pos == d.pos,
{
}

/// An energy effect never leaves vitality at zero beside a genome: an agent
/// that it drains from some vitality to none is dormant and has no age.
pub proof fn lemma_drained_agent_is_dormant(
    d: Dot,
    delta: i32,
    mask: Option<[u16; 3]>,
    origin: Option<Coord>,
    d2: Dot,
    out: Option<(Coord, Effect)>,
)
    requires
        d.wf(),
        energy_outcome(d, delta, mask, origin, d2, out),
    ensures
        d.energy > 0 && d2.energy == 0 ==> d2.genome() is None && d2.age == 0,
{
}

/// Clamping vitality is monotonic in the delta and bounded: for every
/// vitality `v` and deltas `d1 <= d2`, `clamp(v + d1) <= clamp(v + d2)`, and
/// both lie in `0..=VITALITY_MAX`.
pub proof fn lemma_clamp_monotonic(v: int, d1: int, d2: int)
    requires
        d1 <= d2,
    ensures
        0 <= clamp_vitality(v + d1) <= clamp_vitality(v + d2) <= VITALITY_MAX,
{
}

/// No sequence of energy effects moves a well-formed agent's vitality out
/// of `0..=VITALITY_MAX`.
pub proof fn lemma_energies_bounded(d: Dot, effects: Seq<(i32, Option<[u16; 3]>)>)
    requires
        d.wf(),
    ensures
        after_energies(d, effects).wf(),
        after_energies(d, effects).energy <= VITALITY_MAX,
    decreases effects.len(),
{
    if effects.len() > 0 {
        lemma_energies_bounded(d, effects.drop_last());
    }
}

/// A dormant agent without vitality that receives a seed carries exactly the
/// seed's genome; an energy effect of zero then leaves its state unchanged,
/// whatever its mask and origin.
pub proof fn lemma_seed_then_zero_energy(
    d: Dot,
    g: Dna,
    mask: [u64; 2],
    reaction_ms: u8,
    seeded: Dot,
    energy_mask: Option<[u16; 3]>,
    origin: Option<Coord>,
    after: Dot,
    out: Option<(Coord, Effect)>,
)
    requires
        d.wf(),
        d.life is Dormant,
        d.energy == 0,
        effect_outcome(d, Effect::SEED(g), seeded, None, mask, reaction_ms),
        effect_outcome(seeded, Effect::ENERGY(0, energy_mask, origin), after, out, mask, reaction_ms),
    ensures
        seeded.genome() == Some(g),
        seeded.energy == 0,
        after == seeded,
{
    assert(scale_delta(0, weight(g.seq, energy_mask)) == 0);
}

/// Seeding colonises but never overwrites: an alive agent is left exactly as
/// it was, and a dormant agent takes the seed's genome exactly, keeping its
/// vitality.
pub proof fn lemma_seed_colonizes(d: Dot, g: Dna, mask: [u64; 2], reaction_ms: u8, d2: Dot)
    requires
        d.wf(),
        effect_outcome(d, Effect::SEED(g), d2, None, mask, reaction_ms),
    ensures
        d.life is Alive ==> d2 == d,
        d.life is Dormant ==> d2.genome() == Some(g) && d2.energy == d.energy && d2.pos == d.pos,
{
}

/// An energy effect with an origin conserves energy: the reciprocal effect
/// goes to the origin and carries exactly the opposite of the change in the
/// addressed agent's vitality.
pub proof fn lemma_energy_conserved(
    d: Dot,
    delta: i32,
    mask: Option<[u16; 3]>,
    origin: Coord,
    d2: Dot,
    out: Option<(Coord, Effect)>,
)
    requires
        d.wf(),
        energy_outcome(d, delta, mask, Some(origin), d2, out),
    ensures
        match out {
            Some((c, Effect::ENERGY(back, None, None))) => c == origin && d2.energy + back
                == d.energy,
            _ => false,
        },
{
}

} // verus!
