use crate::random::random_words;
use bitvec::field::BitField;
use bitvec::order::Lsb0;
use bitvec::view::BitView;
use vstd::prelude::*;

verus! {

/// Number of 64-bit words in a genome.
pub const SIZE: usize = 2;

/// Denominator of a colour channel: a channel `c` stands for `c / 255`.
pub const COLOR_SCALE: u32 = 255;

/// Smallest colour channel a genome can express.
pub const COLOR_FLOOR: u32 = 64;

/// Denominator of a digestion-mask channel: `m` stands for `m / 256`.
pub const MASK_SCALE: u32 = 256;

/// Width of the bit window that encodes one colour channel.
pub const COLOR_BITS: usize = 6;

/// Width of the bit window that encodes one digestion-mask channel.
pub const MASK_BITS: usize = 8;

/// The genome's bits as one number: bit `i` of word `i / 64` is bit `i`.
pub open spec fn joined(seq: [u64; 2]) -> u128 {
    ((seq[1] as u128) << 64u128) | (seq[0] as u128)
}

/// The `len` bits of the genome that start at bit `start` (least
/// significant first), as an unsigned number.
pub open spec fn bit_window(seq: [u64; 2], start: u128, len: u128) -> u128 {
    (joined(seq) >> start) & (((1u128 << len) - 1) as u128)
}

/// Whether bit `i` of `w` is set.
pub open spec fn bit(w: u64, i: u64) -> bool {
    (w >> i) & 1u64 == 1u64
}

/// Colour channel `i` (0, 1 or 2) of the phenotype of `seq`, over
/// [`COLOR_SCALE`].
pub open spec fn color_of(seq: [u64; 2], i: int) -> int {
    COLOR_FLOOR + bit_window(seq, (COLOR_BITS * i) as u128, COLOR_BITS as u128)
}

/// Digestion-mask channel `i` (0, 1 or 2) of the phenotype of `seq`, over
/// [`MASK_SCALE`]; the mask windows follow the three colour windows.
pub open spec fn digest_of(seq: [u64; 2], i: int) -> int {
    bit_window(seq, (3 * COLOR_BITS + MASK_BITS * i) as u128, MASK_BITS as u128) as int
}

/// One word of a uniform crossover: where `m` has a one the bit comes from
/// `a`, elsewhere from `b`.
pub open spec fn mix(a: u64, b: u64, m: u64) -> u64 {
    (m & a) | (!m & b)
}

/// Whether `child` is the uniform crossover of `a` and `b` under `mask`.
pub open spec fn is_crossover(child: [u64; 2], a: [u64; 2], b: [u64; 2], mask: [u64; 2]) -> bool {
    forall|i: int| 0 <= i < 2 ==> child[i] == mix(a[i], b[i], mask[i])
}

/// Whether `p` is the phenotype that `seq` encodes.
pub open spec fn is_phenotype_of(p: Phenotype, seq: [u64; 2]) -> bool {
    forall|i: int| 0 <= i < 3 ==> p.color[i] == color_of(seq, i) && p.digest_mask[i] == digest_of(seq, i)
}

/// A window of at most 32 bits is below `2^len`.
proof fn lemma_window_bound(seq: [u64; 2], start: u128, len: u128)
    requires
        len <= 32,
    ensures
        bit_window(seq, start, len) < (1u128 << len),
{
    let x = joined(seq);
    assert((x >> start) & (((1u128 << len) - 1) as u128) < (1u128 << len)) by (bit_vector)
        requires
            len <= 32,
    ;
}

/// Relies on bitvec's `BitView::view_bits::<Lsb0>` and `BitField::load_le`:
/// bit `i` of the view is bit `i % 64` of word `i / 64`, and a window of 1 to
/// 32 bits loads as a number whose least significant bit is the window's
/// first bit, the bits from the later word being the more significant.
#[verifier::external_body]
fn load_bits(seq: &[u64; 2], start: usize, len: usize) -> (r: u32)
    requires
        1 <= len <= 32,
        start + len <= 128,
    ensures
        r as u128 == bit_window(*seq, start as u128, len as u128),
{
    seq.view_bits::<Lsb0>()[start..start + len].load_le::<u32>()
}

/// Reads consecutive bit windows of a genome.
struct Sequencer {
    seq: [u64; 2],
    cursor: usize,
}

impl Sequencer {
    /// The next `n` bits, as a number; the cursor moves past them.
    fn next_bits(&mut self, n: usize) -> (r: u32)
        requires
            1 <= n <= 32,
            old(self).cursor + n <= 128,
        ensures
            final(self).seq == old(self).seq,
            final(self).cursor == old(self).cursor + n,
            r as u128 == bit_window(old(self).seq, old(self).cursor as u128, n as u128),
            (r as u128) < (1u128 << n as u128),
    {
        let start = self.cursor;
        self.cursor = start + n;
        let r = load_bits(&self.seq, start, n);
        proof {
            lemma_window_bound(self.seq, start as u128, n as u128);
        }
        r
    }
}

/// What a genome expresses: a colour and a per-channel digestion mask.
#[derive(Clone, Copy, Debug, PartialEq, Eq)]
pub struct Phenotype {
    /// Red, green and blue, each over [`COLOR_SCALE`].
    pub color: [u16; 3],
    /// Per-channel digestibility, each over [`MASK_SCALE`].
    pub digest_mask: [u16; 3],
}

/// A genome: a fixed-width bit sequence. Its phenotype is derived from the
/// bits whenever it is asked for, so two genomes are equal exactly when their
/// bits are.
#[derive(Clone, Copy, Debug, Hash)]
pub struct Dna {
    pub seq: [u64; SIZE],
}

impl PartialEq for Dna {
    fn eq(&self, o: &Dna) -> (r: bool) {
        self.seq[0] == o.seq[0] && self.seq[1] == o.seq[1]
    }
}

impl vstd::std_specs::cmp::PartialEqSpecImpl for Dna {
    open spec fn obeys_eq_spec() -> bool {
        true
    }

    open spec fn eq_spec(&self, o: &Dna) -> bool {
        self.seq[0] == o.seq[0] && self.seq[1] == o.seq[1]
    }
}

impl Eq for Dna {

}

impl Dna {
    /// The genome with bits `seq`.
    pub fn new(seq: [u64; SIZE]) -> (r: Dna)
        ensures
            r.seq == seq,
    {
        Dna { seq }
    }

    /// The phenotype the bits encode: colour channel `i` is
    /// `COLOR_FLOOR` plus the `i`-th six-bit window, mask channel `i` the
    /// `i`-th eight-bit window after the colour windows.
    pub fn phenotype(&self) -> (r: Phenotype)
        ensures
            is_phenotype_of(r, self.seq),
            forall|i: int|
                0 <= i < 3 ==> COLOR_FLOOR <= #[trigger] r.color[i] < 2 * COLOR_FLOOR
                    && r.color[i] <= COLOR_SCALE && r.digest_mask[i] < MASK_SCALE,
    {
        let mut s = Sequencer { seq: self.seq, cursor: 0 };
        let red = s.next_bits(COLOR_BITS);
        let green = s.next_bits(COLOR_BITS);
        let blue = s.next_bits(COLOR_BITS);
        let m0 = s.next_bits(MASK_BITS);
        let m1 = s.next_bits(MASK_BITS);
        let m2 = s.next_bits(MASK_BITS);
        assert(1u128 << 6u128 == 64) by (bit_vector);
        assert(1u128 << 8u128 == 256) by (bit_vector);
        let r = Phenotype {
            color: [
                (red + COLOR_FLOOR) as u16,
                (green + COLOR_FLOOR) as u16,
                (blue + COLOR_FLOOR) as u16,
            ],
            digest_mask: [m0 as u16, m1 as u16, m2 as u16],
        };
        assert(is_phenotype_of(r, self.seq));
        r
    }
}

/// The child of `mine` and `other` under crossover mask `mask`: each bit
/// comes from `mine` where the mask bit is set and from `other` elsewhere.
pub fn recombine(mine: Dna, other: Dna, mask: [u64; SIZE]) -> (r: Dna)
    ensures
        is_crossover(r.seq, mine.seq, other.seq, mask),
{
    let mut seq: [u64; SIZE] = [0; SIZE];
    let mut i: usize = 0;
    while i < SIZE
        invariant
            i <= SIZE,
            forall|j: int| 0 <= j < i ==> seq[j] == mix(mine.seq[j], other.seq[j], mask[j]),
        decreases SIZE - i,
    {
        seq[i] = (mask[i] & mine.seq[i]) | (!mask[i] & other.seq[i]);
        i = i + 1;
    }
    Dna::new(seq)
}

/// Uniform per-bit crossover of two genomes under a freshly drawn mask.
pub fn combine(mine: Dna, other: Dna) -> (r: Dna)
    ensures
        exists|mask: [u64; 2]| is_crossover(r.seq, mine.seq, other.seq, mask),
{
    let mask = random_words();
    recombine(mine, other, mask)
}

/// One bit of a crossover word is the mask-selected parent's bit.
proof fn lemma_mix_bit(a: u64, b: u64, m: u64, i: u64)
    requires
        i < 64,
    ensures
        bit(mix(a, b, m), i) == if bit(m, i) {
            bit(a, i)
        } else {
            bit(b, i)
        },
{
    assert((((m & a) | (!m & b)) >> i) & 1u64 == if (m >> i) & 1u64 == 1u64 {
        (a >> i) & 1u64
    } else {
        (b >> i) & 1u64
    }) by (bit_vector)
        requires
            i < 64,
    ;
}

/// Deriving a phenotype is pure: phenotypes derived from genomes with the
/// same bits are identical, whenever and however often they are derived.
pub proof fn lemma_phenotype_pure(a: Dna, b: Dna, pa: Phenotype, pb: Phenotype)
    requires
        a.seq == b.seq,
        is_phenotype_of(pa, a.seq),
        is_phenotype_of(pb, b.seq),
    ensures
        pa.color@ == pb.color@,
        pa.digest_mask@ == pb.digest_mask@,
{
    assert forall|i: int| 0 <= i < 3 implies pa.color@[i] == pb.color@[i] && pa.digest_mask@[i]
        == pb.digest_mask@[i] by {
        assert(pa.color[i] == color_of(a.seq, i) && pb.color[i] == color_of(b.seq, i));
        assert(pa.digest_mask[i] == digest_of(a.seq, i) && pb.digest_mask[i] == digest_of(
            b.seq,
            i,
        ));
    }
    assert(pa.color@ =~= pb.color@);
    assert(pa.digest_mask@ =~= pb.digest_mask@);
}

/// Recombination is a uniform per-bit crossover: for all parents and masks,
/// every bit of the child is the parent's bit that the mask selects (`a`
/// where the mask bit is set, `b` elsewhere), and every colour channel of the
/// child lies in `[0, 1]`.
pub proof fn lemma_crossover_law(a: Dna, b: Dna, mask: [u64; 2], child: Dna)
    requires
        is_crossover(child.seq, a.seq, b.seq, mask),
    ensures
        forall|w: int, i: u64|
            0 <= w < 2 && i < 64 ==> #[trigger] bit(child.seq[w], i) == if bit(mask[w], i) {
                bit(a.seq[w], i)
            } else {
                bit(b.seq[w], i)
            },
        forall|i: int| 0 <= i < 3 ==> 0 <= #[trigger] color_of(child.seq, i) <= COLOR_SCALE,
{
    assert forall|w: int, i: u64| 0 <= w < 2 && i < 64 implies #[trigger] bit(child.seq[w], i)
        == if bit(mask[w], i) {
        bit(a.seq[w], i)
    } else {
        bit(b.seq[w], i)
    } by {
        lemma_mix_bit(a.seq[w], b.seq[w], mask[w], i);
    }
    assert forall|i: int| 0 <= i < 3 implies 0 <= #[trigger] color_of(child.seq, i)
        <= COLOR_SCALE by {
        lemma_window_bound(child.seq, (COLOR_BITS * i) as u128, COLOR_BITS as u128);
        assert(1u128 << 6u128 == 64) by (bit_vector);
    }
}

} // verus!
