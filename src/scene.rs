use crate::coord::Coord;
use crate::dots::{appearance, effect_outcome, lemma_effect_keeps_wf, tick_by_some_draw, Dot, Life};
use crate::effect::Effect;
use crate::random::{random_byte, random_words};
use std::collections::HashMap;
use vstd::prelude::*;

verus! {

/// Largest extent of the grid along either axis, so that every cell's
/// on-screen offset at any scale stays representable.
pub const MAX_EXTENT: i64 = 36028797018963967;

/// A cell's key in the scene's index: column in the high 64 bits, row in
/// the low 64 bits.
pub open spec fn cell_key(c: Coord) -> u128 {
    (c.x * 0x1_0000_0000_0000_0000 + c.y) as u128
}

/// A fresh agent: dormant, without vitality or age.
pub open spec fn dormant(pos: Coord) -> Dot {
    Dot { pos, life: Life::Dormant, energy: 0, age: 0 }
}

/// How one agent is drawn at `scale` pixels per cell: the left and top edge
/// and the side of its square, its colour and its intensity.
pub open spec fn sprite_of(d: Dot, scale: u8, s: (i64, i64, i64, ([u16; 3], u32))) -> bool {
    &&& s.0 == d.pos.x * scale
    &&& s.1 == d.pos.y * scale
    &&& s.2 == scale
    &&& appearance(d, s.3.0, s.3.1)
}

/// What a scene holds: its extent, its scale and its agents in the order in
/// which they were placed.
pub struct SceneView {
    pub size: Coord,
    pub scale: u8,
    pub dots: Seq<Dot>,
}

impl SceneView {
    /// Whether `c` lies inside the grid.
    pub open spec fn in_bounds(self, c: Coord) -> bool {
        0 <= c.x < self.size.x && 0 <= c.y < self.size.y
    }

    /// Whether an agent occupies `c`.
    pub open spec fn occupied(self, c: Coord) -> bool {
        exists|i: int| 0 <= i < self.dots.len() && #[trigger] self.dots[i].pos == c
    }

    /// The position in placement order of the agent at `c`, if one is there.
    pub open spec fn slot_of(self, c: Coord) -> int {
        choose|i: int| 0 <= i < self.dots.len() && #[trigger] self.dots[i].pos == c
    }

    /// Every agent is well formed and inside the grid, and no two agents
    /// share a cell.
    pub open spec fn wf(self) -> bool {
        &&& self.size.x <= MAX_EXTENT
        &&& self.size.y <= MAX_EXTENT
        &&& forall|i: int|
            0 <= i < self.dots.len() ==> #[trigger] self.dots[i].wf() && self.in_bounds(
                self.dots[i].pos,
            )
        &&& forall|i: int, j: int|
            0 <= i < self.dots.len() && 0 <= j < self.dots.len() && i != j ==> #[trigger] self.dots[i].pos
                != #[trigger] self.dots[j].pos
    }
}

/// What delivering an effect did: whether it placed a new agent, and the
/// reciprocal effect to send on, if any.
#[derive(Clone, Copy, Debug)]
pub struct Delivery {
    pub created: bool,
    pub reply: Option<(Coord, Effect)>,
}

/// The outcome of delivering `e` to `pos`, given the crossover mask and
/// reaction interval that a recombining seed uses. Outside the grid nothing
/// changes. Inside it, the agent at `pos` takes the effect; where there is
/// none, a dormant agent is placed there first and takes it.
pub open spec fn delivery_outcome(
    v: SceneView,
    pos: Coord,
    e: Effect,
    v2: SceneView,
    r: Delivery,
    mask: [u64; 2],
    reaction_ms: u8,
) -> bool {
    &&& v2.size == v.size
    &&& v2.scale == v.scale
    &&& if !v.in_bounds(pos) {
        v2 == v && !r.created && r.reply is None
    } else if v.occupied(pos) {
        let i = v.slot_of(pos);
        &&& !r.created
        &&& v2.dots == v.dots.update(i, v2.dots[i])
        &&& effect_outcome(v.dots[i], e, v2.dots[i], r.reply, mask, reaction_ms)
    } else {
        let n = v.dots.len() as int;
        &&& r.created
        &&& v2.dots.len() == n + 1
        &&& v2.dots.take(n) == v.dots
        &&& effect_outcome(dormant(pos), e, v2.dots[n], r.reply, mask, reaction_ms)
    }
}

/// The grid: an arena of agents in placement order and an index from each
/// occupied cell to its agent's slot.
pub struct Scene {
    size: Coord,
    scale: u8,
    dots: Vec<Dot>,
    index: HashMap<u128, usize>,
}

impl View for Scene {
    type V = SceneView;

    closed spec fn view(&self) -> SceneView {
        SceneView { size: self.size, scale: self.scale, dots: self.dots@ }
    }
}

/// Keys of cells with nonnegative coordinates determine the cells.
proof fn lemma_key_injective(a: Coord, b: Coord)
    requires
        a.x >= 0,
        a.y >= 0,
        b.x >= 0,
        b.y >= 0,
        cell_key(a) == cell_key(b),
    ensures
        a == b,
{
    let s: int = 0x1_0000_0000_0000_0000;
    assert(a.x * s + a.y < 0x1_0000_0000_0000_0000_0000_0000_0000_0000) by (nonlinear_arith)
        requires
            0 <= a.x < 0x8000_0000_0000_0000,
            0 <= a.y < 0x8000_0000_0000_0000,
            s == 0x1_0000_0000_0000_0000,
    ;
    assert(b.x * s + b.y < 0x1_0000_0000_0000_0000_0000_0000_0000_0000) by (nonlinear_arith)
        requires
            0 <= b.x < 0x8000_0000_0000_0000,
            0 <= b.y < 0x8000_0000_0000_0000,
            s == 0x1_0000_0000_0000_0000,
    ;
    assert(a.x == b.x && a.y == b.y) by (nonlinear_arith)
        requires
            a.x * s + a.y == b.x * s + b.y,
            0 <= a.y < s,
            0 <= b.y < s,
            0 <= a.x,
            0 <= b.x,
            s > 0,
    ;
}

impl Scene {
    /// The scene is well formed as a view, and its index is exact.
    pub open spec fn wf(&self) -> bool {
        &&& self@.wf()
        &&& self.indexed()
    }

    /// The index maps exactly the occupied cells' keys to their agents'
    /// slots.
    pub closed spec fn indexed(&self) -> bool {
        &&& forall|i: int|
            0 <= i < self.dots@.len() ==> #[trigger] self.index@.contains_key(
                cell_key(self.dots@[i].pos),
            ) && self.index@[cell_key(self.dots@[i].pos)] == i
        &&& forall|k: u128| #[trigger]
            self.index@.contains_key(k) ==> (self.index@[k] as int) < self.dots@.len()
                && cell_key(self.dots@[self.index@[k] as int].pos) == k
    }

    /// An empty scene of `size.x` columns and `size.y` rows, drawn at
    /// `scale` pixels per cell.
    pub fn new(size: Coord, scale: u8) -> (r: Scene)
        requires
            size.x <= MAX_EXTENT,
            size.y <= MAX_EXTENT,
        ensures
            r.wf(),
            r@.size == size,
            r@.scale == scale,
            r@.dots == Seq::<Dot>::empty(),
    {
        let r = Scene { size, scale, dots: Vec::new(), index: HashMap::new() };
        assert(r@.dots =~= Seq::<Dot>::empty());
        r
    }

    fn in_bounds(&self, pos: Coord) -> (r: bool)
        ensures
            r == self@.in_bounds(pos),
    {
        0 <= pos.x && pos.x < self.size.x && 0 <= pos.y && pos.y < self.size.y
    }

    /// The slot of the agent at `pos`, if one is there.
    fn slot(&self, pos: Coord) -> (r: Option<usize>)
        requires
            self.wf(),
        ensures
            match r {
                Some(i) => self@.in_bounds(pos) && self@.occupied(pos) && i == self@.slot_of(pos)
                    && i < self@.dots.len(),
                None => !self@.occupied(pos),
            },
    {
        if !self.in_bounds(pos) {
            assert forall|i: int| 0 <= i < self@.dots.len() implies #[trigger] self@.dots[i].pos
                != pos by {
                assert(self@.dots[i].wf());
            }
            return None;
        }
        let key: u128 = (pos.x as u128) * 0x1_0000_0000_0000_0000 + pos.y as u128;
        assert(key == cell_key(pos));
        match self.index.get(&key) {
            Some(i) => {
                let i = *i;
                proof {
                    let d = self@.dots[i as int];
                    assert(self@.dots[i as int].wf());
                    lemma_key_injective(d.pos, pos);
                    assert(self@.dots[i as int].pos == pos);
                    let j = self@.slot_of(pos);
                    assert(self@.dots[j].pos == pos);
                    if j != i {
                        assert(self@.dots[j].pos != self@.dots[i as int].pos);
                    }
                }
                Some(i)
            },
            None => {
                assert forall|i: int| 0 <= i < self@.dots.len() implies #[trigger] self@.dots[i].pos
                    != pos by {
                    if self@.dots[i].pos == pos {
                        assert(self.index@.contains_key(cell_key(self.dots@[i].pos)));
                    }
                }
                None
            },
        }
    }
}

impl Scene {
    /// Places `dot` in its cell, which lies inside the grid and is free;
    /// returns its slot.
    fn place(&mut self, dot: Dot) -> (i: usize)
        requires
            old(self).wf(),
            dot.wf(),
            old(self)@.in_bounds(dot.pos),
            !old(self)@.occupied(dot.pos),
        ensures
            final(self).wf(),
            final(self)@ == (SceneView { dots: old(self)@.dots.push(dot), ..old(self)@ }),
            i == old(self)@.dots.len(),
    {
        let ghost pos = dot.pos;
        let i = self.dots.len();
        let key: u128 = (dot.pos.x as u128) * 0x1_0000_0000_0000_0000 + dot.pos.y as u128;
        assert(key == cell_key(pos));
        proof {
            if self.index@.contains_key(key) {
                let j = self.index@[key] as int;
                assert(self@.dots[j].wf());
                lemma_key_injective(self@.dots[j].pos, pos);
                assert(self@.dots[j].pos == pos);
            }
        }
        let ghost old_index = self.index@;
        let ghost old_dots = self.dots@;
        self.dots.push(dot);
        self.index.insert(key, i);
        proof {
            assert forall|j: int| 0 <= j < self.dots@.len() implies #[trigger] self.index@.contains_key(
                cell_key(self.dots@[j].pos),
            ) && self.index@[cell_key(self.dots@[j].pos)] == j by {
                if j < i {
                    assert(old_dots[j] == self.dots@[j]);
                    assert(old_index.contains_key(cell_key(old_dots[j].pos)));
                }
            }
            assert forall|j: int, l: int|
                0 <= j < self@.dots.len() && 0 <= l < self@.dots.len() && j != l implies #[trigger] self@.dots[j].pos
                != #[trigger] self@.dots[l].pos by {
                if j < i && l < i {
                    assert(old_dots[j] == self@.dots[j] && old_dots[l] == self@.dots[l]);
                } else if j < i {
                    assert(old_dots[j] == self@.dots[j]);
                } else if l < i {
                    assert(old_dots[l] == self@.dots[l]);
                }
            }
            assert forall|j: int| 0 <= j < self@.dots.len() implies #[trigger] self@.dots[j].wf()
                && self@.in_bounds(self@.dots[j].pos) by {
                if j < i {
                    assert(old_dots[j] == self@.dots[j]);
                }
            }
            assert(self@.dots =~= old_dots.push(dot));
        }
        i
    }

    /// Puts `d` in slot `i` in place of the agent in the same cell.
    fn replace(&mut self, i: usize, d: Dot)
        requires
            old(self).wf(),
            i < old(self)@.dots.len(),
            d.wf(),
            d.pos == old(self)@.dots[i as int].pos,
        ensures
            final(self).wf(),
            final(self)@ == (SceneView { dots: old(self)@.dots.update(i as int, d), ..old(self)@ }),
    {
        let ghost v = self@;
        let ghost old_index = self.index@;
        let ghost old_dots = self.dots@;
        self.dots.set(i, d);
        proof {
            assert forall|j: int| 0 <= j < self@.dots.len() implies #[trigger] self@.dots[j].wf()
                && self@.in_bounds(self@.dots[j].pos) by {
                if j != i {
                    assert(v.dots[j] == self@.dots[j]);
                    assert(v.dots[j].wf());
                } else {
                    assert(v.dots[j].wf());
                }
            }
            assert forall|j: int, l: int|
                0 <= j < self@.dots.len() && 0 <= l < self@.dots.len() && j != l implies #[trigger] self@.dots[j].pos
                != #[trigger] self@.dots[l].pos by {
                assert(v.dots[j].pos == self@.dots[j].pos);
                assert(v.dots[l].pos == self@.dots[l].pos);
            }
            assert forall|j: int| 0 <= j < self.dots@.len() implies #[trigger] self.index@.contains_key(
                cell_key(self.dots@[j].pos),
            ) && self.index@[cell_key(self.dots@[j].pos)] == j by {
                assert(v.dots[j].pos == self@.dots[j].pos);
                assert(old_index.contains_key(cell_key(old_dots[j].pos)));
            }
            assert forall|k: u128| #[trigger]
                self.index@.contains_key(k) implies (self.index@[k] as int) < self.dots@.len()
                && cell_key(self.dots@[self.index@[k] as int].pos) == k by {
                assert(v.dots[self.index@[k] as int].pos == self@.dots[self.index@[k] as int].pos);
            }
            assert(self@.dots =~= v.dots.update(i as int, d));
        }
    }

    /// A copy of the agent at `pos`, if one is there.
    pub fn at(&self, pos: Coord) -> (r: Option<Dot>)
        requires
            self.wf(),
        ensures
            r == if self@.occupied(pos) {
                Some(self@.dots[self@.slot_of(pos)])
            } else {
                None
            },
    {
        match self.slot(pos) {
            Some(i) => Some(self.dots[i]),
            None => None,
        }
    }

    /// Number of agents in the scene.
    pub fn len(&self) -> (r: usize)
        ensures
            r == self@.dots.len(),
    {
        self.dots.len()
    }

    /// Registers `dot` at its cell `pos`, unless `pos` lies outside the grid
    /// or already holds an agent; returns whether it was registered.
    pub fn push_dot(&mut self, pos: Coord, dot: Dot) -> (r: bool)
        requires
            old(self).wf(),
            dot.wf(),
            dot.pos == pos,
        ensures
            final(self).wf(),
            r == (old(self)@.in_bounds(pos) && !old(self)@.occupied(pos)),
            final(self)@ == if r {
                SceneView { dots: old(self)@.dots.push(dot), ..old(self)@ }
            } else {
                old(self)@
            },
    {
        if !self.in_bounds(pos) {
            return false;
        }
        match self.slot(pos) {
            Some(_) => false,
            None => {
                self.place(dot);
                true
            },
        }
    }

    /// Delivers `effect` to the cell `pos`, with `mask` and `reaction_ms`
    /// standing for the crossover mask and reaction interval that a
    /// recombining seed uses.
    pub fn deliver_with(&mut self, pos: Coord, effect: Effect, mask: [u64; 2], reaction_ms: u8) -> (r:
        Delivery)
        requires
            old(self).wf(),
        ensures
            final(self).wf(),
            delivery_outcome(old(self)@, pos, effect, final(self)@, r, mask, reaction_ms),
    {
        let ghost v = self@;
        match self.slot(pos) {
            Some(i) => {
                let mut d = self.dots[i];
                assert(self@.dots[i as int].wf());
                let reply = d.apply_effect_with(effect, mask, reaction_ms);
                self.replace(i, d);
                Delivery { created: false, reply }
            },
            None => {
                if !self.in_bounds(pos) {
                    return Delivery { created: false, reply: None };
                }
                let mut d = Dot::new(pos, None, 0);
                assert(d == dormant(pos));
                let reply = d.apply_effect_with(effect, mask, reaction_ms);
                self.place(d);
                proof {
                    let n = v.dots.len() as int;
                    assert(self@.dots.take(n) =~= v.dots);
                }
                Delivery { created: true, reply }
            },
        }
    }

    /// Delivers `effect` to the cell `pos`, drawing a fresh crossover mask
    /// and reaction interval for a seed.
    pub fn deliver(&mut self, pos: Coord, effect: Effect) -> (r: Delivery)
        requires
            old(self).wf(),
        ensures
            final(self).wf(),
            exists|mask: [u64; 2], reaction_ms: u8|
                delivery_outcome(old(self)@, pos, effect, final(self)@, r, mask, reaction_ms),
    {
        let (mask, reaction_ms) = match effect {
            Effect::SEED(_) => (random_words(), random_byte()),
            Effect::ENERGY(_, _, _) => ([0u64; 2], 0u8),
        };
        self.deliver_with(pos, effect, mask, reaction_ms)
    }
}

impl Scene {
    /// Runs one tick of the agent at `pos`, if one is there, with a freshly
    /// drawn action and direction; returns the delay until its next tick, in
    /// milliseconds, and the effect it emitted, if any.
    pub fn tick(&mut self, pos: Coord) -> (r: Option<(u64, Option<(Coord, Effect)>)>)
        requires
            old(self).wf(),
        ensures
            final(self).wf(),
            final(self)@.size == old(self)@.size,
            final(self)@.scale == old(self)@.scale,
            match r {
                None => !old(self)@.occupied(pos) && final(self)@ == old(self)@,
                Some((delay_ms, out)) => {
                    let i = old(self)@.slot_of(pos);
                    &&& old(self)@.occupied(pos)
                    &&& final(self)@.dots == old(self)@.dots.update(i, final(self)@.dots[i])
                    &&& tick_by_some_draw(old(self)@.dots[i], final(self)@.dots[i], delay_ms, out)
                },
            },
    {
        match self.slot(pos) {
            Some(i) => {
                let mut d = self.dots[i];
                assert(self@.dots[i as int].wf());
                let r = d.tick();
                self.replace(i, d);
                Some(r)
            },
            None => None,
        }
    }

    /// A snapshot for drawing: for each agent in placement order, the left
    /// and top edge of its square in pixels, the square's side, and the
    /// agent's colour and intensity.
    pub fn describe(&self) -> (r: Vec<(i64, i64, i64, ([u16; 3], u32))>)
        requires
            self.wf(),
        ensures
            r@.len() == self@.dots.len(),
            forall|i: int| 0 <= i < r@.len() ==> sprite_of(self@.dots[i], self@.scale, #[trigger] r@[i]),
    {
        let mut r: Vec<(i64, i64, i64, ([u16; 3], u32))> = Vec::new();
        let scale = self.scale as i64;
        let mut i: usize = 0;
        while i < self.dots.len()
            invariant
                self.wf(),
                scale == self.scale,
                i <= self.dots@.len(),
                r@.len() == i,
                forall|j: int| 0 <= j < i ==> sprite_of(self@.dots[j], self@.scale, #[trigger] r@[j]),
            decreases self.dots@.len() - i,
        {
            let d = self.dots[i];
            assert(self@.dots[i as int].wf() && self@.in_bounds(self@.dots[i as int].pos));
            let (p, look) = d.describe();
            assert(0 <= p.0 * scale <= MAX_EXTENT * 255) by (nonlinear_arith)
                requires
                    0 <= p.0 <= MAX_EXTENT,
                    0 <= scale <= 255,
            ;
            assert(0 <= p.1 * scale <= MAX_EXTENT * 255) by (nonlinear_arith)
                requires
                    0 <= p.1 <= MAX_EXTENT,
                    0 <= scale <= 255,
            ;
            r.push((p.0 * scale, p.1 * scale, scale, look));
            i = i + 1;
        }
        r
    }
}

/// A delivery keeps the scene well formed; afterwards the addressed cell is
/// occupied exactly when it lies inside the grid, and a new agent was placed
/// exactly when the cell was inside the grid and free.
pub proof fn lemma_delivery_keeps_wf(
    v: SceneView,
    pos: Coord,
    e: Effect,
    v2: SceneView,
    r: Delivery,
    mask: [u64; 2],
    reaction_ms: u8,
)
    requires
        v.wf(),
        delivery_outcome(v, pos, e, v2, r, mask, reaction_ms),
    ensures
        v2.wf(),
        v2.occupied(pos) == v.in_bounds(pos),
        r.created == (v.in_bounds(pos) && !v.occupied(pos)),
        v2.dots.len() == v.dots.len() + if r.created {
            1int
        } else {
            0int
        },
{
    if v.in_bounds(pos) {
        let n = v.dots.len() as int;
        if v.occupied(pos) {
            let i = v.slot_of(pos);
            lemma_effect_keeps_wf(v.dots[i], e, v2.dots[i], r.reply, mask, reaction_ms);
            assert forall|j: int| 0 <= j < v2.dots.len() implies #[trigger] v2.dots[j].wf()
                && v2.in_bounds(v2.dots[j].pos) by {
                assert(v.dots[j].wf());
            }
            assert forall|j: int, l: int|
                0 <= j < v2.dots.len() && 0 <= l < v2.dots.len() && j != l implies #[trigger] v2.dots[j].pos
                != #[trigger] v2.dots[l].pos by {
                assert(v.dots[j].pos == v2.dots[j].pos);
                assert(v.dots[l].pos == v2.dots[l].pos);
            }
            assert(v2.dots[i].pos == pos);
        } else {
            lemma_effect_keeps_wf(dormant(pos), e, v2.dots[n], r.reply, mask, reaction_ms);
            assert forall|j: int| 0 <= j < n implies v2.dots[j] == v.dots[j] by {
                assert(v2.dots.take(n)[j] == v2.dots[j]);
            }
            assert forall|j: int| 0 <= j < v2.dots.len() implies #[trigger] v2.dots[j].wf()
                && v2.in_bounds(v2.dots[j].pos) by {
                if j < n {
                    assert(v.dots[j].wf());
                }
            }
            assert forall|j: int, l: int|
                0 <= j < v2.dots.len() && 0 <= l < v2.dots.len() && j != l implies #[trigger] v2.dots[j].pos
                != #[trigger] v2.dots[l].pos by {
                if j < n && l < n {
                    assert(v.dots[j].pos != v.dots[l].pos);
                } else if j < n {
                    assert(v.dots[j].pos != pos);
                } else if l < n {
                    assert(v.dots[l].pos != pos);
                }
            }
            assert(v2.dots[n].pos == pos);
        }
    } else {
        assert forall|j: int| 0 <= j < v.dots.len() implies #[trigger] v.dots[j].pos != pos by {
            assert(v.dots[j].wf());
        }
    }
}

/// What holds after the first `k` of a run of deliveries to one cell.
proof fn lemma_deliveries_prefix(
    views: Seq<SceneView>,
    pos: Coord,
    effects: Seq<Effect>,
    results: Seq<Delivery>,
    masks: Seq<[u64; 2]>,
    reactions: Seq<u8>,
    k: int,
)
    requires
        0 <= k <= effects.len(),
        views.len() == effects.len() + 1,
        results.len() == effects.len(),
        masks.len() == effects.len(),
        reactions.len() == effects.len(),
        views[0].wf(),
        forall|i: int|
            0 <= i < effects.len() ==> #[trigger] delivery_outcome(
                views[i],
                pos,
                effects[i],
                views[i + 1],
                results[i],
                masks[i],
                reactions[i],
            ),
    ensures
        views[k].wf(),
        views[k].size == views[0].size,
        k > 0 ==> views[k].occupied(pos) == views[0].in_bounds(pos),
        views[k].dots.len() <= views[0].dots.len() + if k > 0 {
            1int
        } else {
            0int
        },
        forall|i: int| 0 < i < k ==> !(#[trigger] results[i]).created,
    decreases k,
{
    if k > 0 {
        lemma_deliveries_prefix(views, pos, effects, results, masks, reactions, k - 1);
        let j = k - 1;
        assert(delivery_outcome(
            views[j],
            pos,
            effects[j],
            views[j + 1],
            results[j],
            masks[j],
            reactions[j],
        ));
        lemma_delivery_keeps_wf(views[j], pos, effects[j], views[j + 1], results[j], masks[j], reactions[j]);
    }
}

/// However many effects arrive for one cell, it ends up with at most one
/// agent: in a run of deliveries to the same cell only the first can place a
/// new agent, the scene grows by at most one agent, no two agents ever share
/// a cell, and afterwards the cell is occupied exactly when it lies inside
/// the grid.
pub proof fn lemma_one_agent_per_cell(
    views: Seq<SceneView>,
    pos: Coord,
    effects: Seq<Effect>,
    results: Seq<Delivery>,
    masks: Seq<[u64; 2]>,
    reactions: Seq<u8>,
)
    requires
        views.len() == effects.len() + 1,
        results.len() == effects.len(),
        masks.len() == effects.len(),
        reactions.len() == effects.len(),
        views[0].wf(),
        forall|i: int|
            0 <= i < effects.len() ==> #[trigger] delivery_outcome(
                views[i],
                pos,
                effects[i],
                views[i + 1],
                results[i],
                masks[i],
                reactions[i],
            ),
    ensures
        views.last().wf(),
        forall|i: int| 0 < i < effects.len() ==> !(#[trigger] results[i]).created,
        views.last().dots.len() <= views[0].dots.len() + 1,
        effects.len() > 0 ==> views.last().occupied(pos) == views[0].in_bounds(pos),
{
    lemma_deliveries_prefix(views, pos, effects, results, masks, reactions, effects.len() as int);
}

} // verus!
