//! The solver's own cube representation: plain piece arrays, one entry
//! per slot, carrying position and orientation in a packed byte. Edges
//! store `position * 2 + flip`, corners store `position + twist * 8`.
use super::util;
use vstd::prelude::*;

verus! {

/// Edge state as a plain array: entry `i` holds the piece in slot `i`.
#[derive(Clone, Copy, Debug, PartialEq, Eq)]
pub struct CubieEdges {
    pub raw: [u8; 12],
}

impl Default for CubieEdges {
    /// The solved edge state.
    fn default() -> (r: CubieEdges)
        ensures
            cubie_edges_wf(r),
    {
        CubieEdges { raw: [0, 2, 4, 6, 8, 10, 12, 14, 16, 18, 20, 22] }
    }
}

/// Every entry names one of the twelve edges: the packed byte stays
/// below 24.
pub open spec fn cubie_edges_wf(c: CubieEdges) -> bool {
    forall|i: int| 0 <= i < 12 ==> c.raw[i] < 24
}

/// Every entry names one of the eight corners with one of the six twist
/// codes: the packed byte stays below 48.
pub open spec fn cubie_corners_wf(c: CubieCorners) -> bool {
    forall|i: int| 0 <= i < 8 ==> c.raw[i] < 48
}

/// Entry `i` of the product of two edge arrays: the piece `a` holds in
/// the slot `b` sends `i` to, its flip toggled by `b`'s flip bit.
pub open spec fn edge_mul_entry(a: CubieEdges, b: CubieEdges, i: int) -> int {
    let o = b.raw[i] as int;
    let s = a.raw[o / 2] as int;
    (s / 2) * 2 + ((s % 2 + o % 2) % 2)
}

/// The packed form of one edge product entry, read field by field.
pub(crate) proof fn lemma_edge_mul_pack(s: u8, o: u8)
    by (bit_vector)
    requires
        s < 24,
        o < 24,
    ensures
        (o >> 1) == o / 2,
        (s ^ (o & 1)) / 2 == s / 2,
        o % 2 == 0 ==> (s ^ (o & 1)) % 2 == s % 2,
        o % 2 == 1 ==> ((s ^ (o & 1)) % 2 == 0 <==> s % 2 == 1),
{
}

impl CubieEdges {
    /// Group product on edge arrays: apply `self`, then `other`.
    pub fn mult(&self, other: &CubieEdges) -> (r: CubieEdges)
        requires
            cubie_edges_wf(*self),
            cubie_edges_wf(*other),
        ensures
            cubie_edges_wf(r),
            forall|i: int| 0 <= i < 12 ==> r.raw[i] as int == edge_mul_entry(*self, *other, i),
    {
        let mut prod: [u8; 12] = [0; 12];
        let mut ed: usize = 0;
        while ed < 12
            invariant
                ed <= 12,
                cubie_edges_wf(*self),
                cubie_edges_wf(*other),
                forall|i: int| 0 <= i < 12 ==> prod@[i] < 24,
                forall|i: int| 0 <= i < ed ==> prod@[i] as int == edge_mul_entry(*self, *other, i),
            decreases 12 - ed,
        {
            let o = other.raw[ed];
            proof {
                lemma_edge_entry_bound(o, o);
            }
            let sv = self.raw[(o >> 1) as usize];
            proof {
                lemma_edge_entry_bound(sv, o);
                lemma_edge_mul_pack(sv, o);
            }
            prod[ed] = sv ^ (o & 1);
            proof {
                let v = (sv ^ (o & 1)) as int;
                vstd::arithmetic::div_mod::lemma_fundamental_div_mod(v, 2);
                assert(prod@[ed as int] as int == edge_mul_entry(*self, *other, ed as int));
            }
            ed = ed + 1;
        }
        CubieEdges { raw: prod }
    }
}

/// A packed edge entry below 24 keeps that bound when its flip bit is
/// toggled, and its position half stays below 12.
pub(crate) proof fn lemma_edge_entry_bound(x: u8, o: u8)
    by (bit_vector)
    requires
        x < 24,
        o < 24,
    ensures
        (x ^ (o & 1)) < 24,
        (o >> 1) < 12,
        (x >> 1) < 12,
{
}

/// Corner state as a plain array: entry `i` holds the piece in slot `i`.
#[derive(Clone, Copy, Debug, PartialEq, Eq)]
pub struct CubieCorners {
    pub raw: [u8; 8],
}

impl Default for CubieCorners {
    /// The solved corner state.
    fn default() -> (r: CubieCorners)
        ensures
            cubie_corners_wf(r),
    {
        CubieCorners { raw: [0, 1, 2, 3, 4, 5, 6, 7] }
    }
}

/// A packed corner entry splits into position and twist fields.
pub(crate) proof fn lemma_corner_entry_bound(x: u8)
    by (bit_vector)
    requires
        x < 48,
    ensures
        (x & 7) < 8,
        (x >> 3) < 6,
{
}

/// Entry `i` of the product of two corner arrays: the piece `a` holds
/// in the slot `b` sends `i` to, the twists added mod 3.
pub open spec fn corner_mul_entry(a: CubieCorners, b: CubieCorners, i: int) -> int {
    let o = b.raw[i] as int;
    let s = a.raw[o % 8] as int;
    (s % 8) + ((s / 8 + o / 8) % 3) * 8
}

/// The packed form of one corner product entry, read field by field.
pub(crate) proof fn lemma_corner_mul_pack(s: u8, o: u8, tw: u8)
    by (bit_vector)
    requires
        s < 48,
        o < 48,
        tw < 6,
    ensures
        (o & 7) == o % 8,
        (o >> 3) == o / 8,
        (s & 7) == s % 8,
        (s >> 3) == s / 8,
        ((s & 7) | (tw << 3u8)) % 8 == s % 8,
        ((s & 7) | (tw << 3u8)) / 8 == tw,
{
}

impl CubieCorners {
    /// Group product on corner arrays, twists added mod 3.
    pub fn mult(self, other: CubieCorners) -> (r: CubieCorners)
        requires
            cubie_corners_wf(self),
            cubie_corners_wf(other),
        ensures
            cubie_corners_wf(r),
            forall|i: int| 0 <= i < 8 ==> r.raw[i] as int == corner_mul_entry(self, other, i),
    {
        let mut prod: [u8; 8] = [0; 8];
        let mut corn: usize = 0;
        while corn < 8
            invariant
                corn <= 8,
                cubie_corners_wf(self),
                cubie_corners_wf(other),
                forall|i: int| 0 <= i < 8 ==> prod@[i] < 48,
                forall|i: int| 0 <= i < corn ==> prod@[i] as int == corner_mul_entry(self, other, i),
            decreases 8 - corn,
        {
            let o = other.raw[corn];
            proof {
                lemma_corner_entry_bound(o);
            }
            let s = self.raw[(o & 7) as usize];
            proof {
                lemma_corner_entry_bound(s);
            }
            let oria = s >> 3;
            let orib = o >> 3;
            let tw = (oria + orib) % 3;
            prod[corn] = (s & 7) | (tw << 3u8);
            proof {
                lemma_corner_pack_bound(s & 7, tw);
                lemma_corner_mul_pack(s, o, tw);
                let v = ((s & 7) | (tw << 3u8)) as int;
                vstd::arithmetic::div_mod::lemma_fundamental_div_mod(v, 8);
                assert(prod@[corn as int] as int == corner_mul_entry(self, other, corn as int));
            }
            corn = corn + 1;
        }
        CubieCorners { raw: prod }
    }
}

/// Packing a position below 8 with a twist code below 6 stays below 48.
pub(crate) proof fn lemma_corner_pack_bound(p: u8, t: u8)
    by (bit_vector)
    requires
        p < 8,
        t < 6,
    ensures
        (p | (t << 3u8)) < 48,
{
}


/// Whether the twelve edge entries sit in twelve distinct slots.
pub open spec fn cubie_edges_distinct(c: CubieEdges) -> bool {
    forall|i: int, j: int| 0 <= i < j < 12 ==> (c.raw[i] as int) / 2 != (c.raw[j] as int) / 2
}

/// Whether the eight corner entries sit in eight distinct slots.
pub open spec fn cubie_corners_distinct(c: CubieCorners) -> bool {
    forall|i: int, j: int| 0 <= i < j < 8 ==> (c.raw[i] as int) % 8 != (c.raw[j] as int) % 8
}

/// The twist code that undoes a twist code; the reflected codes all
/// come back untwisted.
pub open spec fn inv_twist_code(t: int) -> int {
    if t == 1 {
        2int
    } else if t == 2 {
        1
    } else {
        0
    }
}

/// `2^n`.
pub open spec fn pow2v(n: nat) -> int
    decreases n,
{
    if n == 0 {
        1
    } else {
        2 * pow2v((n - 1) as nat)
    }
}

/// `3^n`.
pub open spec fn pow3v(n: nat) -> int
    decreases n,
{
    if n == 0 {
        1
    } else {
        3 * pow3v((n - 1) as nat)
    }
}

pub(crate) proof fn lemma_pow2v_vals()
    ensures
        pow2v(0) == 1,
        pow2v(1) == 2,
        pow2v(2) == 4,
        pow2v(3) == 8,
        pow2v(4) == 16,
        pow2v(5) == 32,
        pow2v(6) == 64,
        pow2v(7) == 128,
        pow2v(8) == 256,
        pow2v(9) == 512,
        pow2v(10) == 1024,
        pow2v(11) == 2048,
{
    assert(pow2v(0) == 1);
    assert(pow2v(1) == 2);
    assert(pow2v(2) == 4);
    assert(pow2v(3) == 8);
    assert(pow2v(4) == 16);
    assert(pow2v(5) == 32);
    assert(pow2v(6) == 64);
    assert(pow2v(7) == 128);
    assert(pow2v(8) == 256);
    assert(pow2v(9) == 512);
    assert(pow2v(10) == 1024);
    assert(pow2v(11) == 2048);
}

pub(crate) proof fn lemma_pow3v_vals()
    ensures
        pow3v(0) == 1,
        pow3v(1) == 3,
        pow3v(2) == 9,
        pow3v(3) == 27,
        pow3v(4) == 81,
        pow3v(5) == 243,
        pow3v(6) == 729,
        pow3v(7) == 2187,
{
    assert(pow3v(0) == 1);
    assert(pow3v(1) == 3);
    assert(pow3v(2) == 9);
    assert(pow3v(3) == 27);
    assert(pow3v(4) == 81);
    assert(pow3v(5) == 243);
    assert(pow3v(6) == 729);
    assert(pow3v(7) == 2187);
}

pub(crate) proof fn lemma_pow2v_mono(a: nat, b: nat)
    requires
        a <= b,
    ensures
        pow2v(a) <= pow2v(b),
        pow2v(a) >= 1,
    decreases b,
{
    if a < b {
        lemma_pow2v_mono(a, (b - 1) as nat);
        assert(pow2v(b) == 2 * pow2v((b - 1) as nat));
    } else if b > 0 {
        lemma_pow2v_mono((a - 1) as nat, (b - 1) as nat);
    }
}

/// The edge-orientation coordinate read off the first `k` flips, most
/// significant first.
pub open spec fn flip_value(e: CubieEdges, k: int) -> int
    decreases k,
{
    if k <= 0 {
        0
    } else {
        flip_value(e, k - 1) * 2 + (e.raw[k - 1] as int) % 2
    }
}

/// The corner-orientation coordinate read off the first `k` twists, most
/// significant first.
pub open spec fn twist_value(c: CubieCorners, k: int) -> int
    decreases k,
{
    if k <= 0 {
        0
    } else {
        twist_value(c, k - 1) * 3 + (c.raw[k - 1] as int) / 8
    }
}

/// Sum of the first `n` flip bits.
pub open spec fn flip_bitsum(e: CubieEdges, n: int) -> int
    decreases n,
{
    if n <= 0 {
        0
    } else {
        flip_bitsum(e, n - 1) + (e.raw[n - 1] as int) % 2
    }
}

/// Sum of the first `n` twist codes.
pub open spec fn twist_codesum(c: CubieCorners, n: int) -> int
    decreases n,
{
    if n <= 0 {
        0
    } else {
        twist_codesum(c, n - 1) + (c.raw[n - 1] as int) / 8
    }
}

/// An array whose leading flip bits are the base-2 digits of `f` reads
/// back as `f` modulo the coordinate size.
pub(crate) proof fn lemma_flip_value_digits(e: CubieEdges, f: int, k: int)
    requires
        0 <= f,
        0 <= k <= 11,
        forall|t: int| 0 <= t < k ==> (e.raw[t] as int) % 2 == (f / pow2v((10 - t) as nat)) % 2,
    ensures
        flip_value(e, k) == (f / pow2v((11 - k) as nat)) % pow2v(k as nat),
    decreases k,
{
    if k == 0 {
        assert(flip_value(e, 0) == 0);
        assert(pow2v(0) == 1);
        assert forall|x: int| #[trigger] (x % 1) == 0 by {
            vstd::arithmetic::div_mod::lemma_mod_multiples_basic(x, 1);
        }
    } else {
        lemma_flip_value_digits(e, f, k - 1);
        let m = pow2v((k - 1) as nat);
        let y = f / pow2v((11 - k) as nat);
        lemma_pow2v_mono(0, (k - 1) as nat);
        assert(pow2v((12 - k) as nat) == 2 * pow2v((11 - k) as nat));
        lemma_pow2v_mono(0, (11 - k) as nat);
        vstd::arithmetic::div_mod::lemma_div_denominator(f, pow2v((11 - k) as nat), 2);
        assert(f / pow2v((12 - k) as nat) == y / 2);
        vstd::arithmetic::div_mod::lemma_breakdown(y, 2, m);
        assert(y % (2 * m) == 2 * ((y / 2) % m) + y % 2);
        assert(pow2v(k as nat) == 2 * m);
        assert((e.raw[k - 1] as int) % 2 == y % 2);
    }
}

/// An array whose leading twist codes are the base-3 digits of `t` reads
/// back as `t` modulo the coordinate size.
pub(crate) proof fn lemma_twist_value_digits(c: CubieCorners, f: int, k: int)
    requires
        0 <= f,
        0 <= k <= 7,
        forall|t: int| 0 <= t < k ==> (c.raw[t] as int) / 8 == (f / pow3v((6 - t) as nat)) % 3,
    ensures
        twist_value(c, k) == (f / pow3v((7 - k) as nat)) % pow3v(k as nat),
    decreases k,
{
    if k == 0 {
        assert(twist_value(c, 0) == 0);
        assert(pow3v(0) == 1);
        assert forall|x: int| #[trigger] (x % 1) == 0 by {
            vstd::arithmetic::div_mod::lemma_mod_multiples_basic(x, 1);
        }
    } else {
        lemma_twist_value_digits(c, f, k - 1);
        let m = pow3v((k - 1) as nat);
        let y = f / pow3v((7 - k) as nat);
        lemma_pow3v_pos((k - 1) as nat);
        assert(pow3v((8 - k) as nat) == 3 * pow3v((7 - k) as nat));
        lemma_pow3v_pos((7 - k) as nat);
        vstd::arithmetic::div_mod::lemma_div_denominator(f, pow3v((7 - k) as nat), 3);
        assert(f / pow3v((8 - k) as nat) == y / 3);
        vstd::arithmetic::div_mod::lemma_breakdown(y, 3, m);
        assert(y % (3 * m) == 3 * ((y / 3) % m) + y % 3);
        assert(pow3v(k as nat) == 3 * m);
        assert((c.raw[k - 1] as int) / 8 == y % 3);
    }
}

pub(crate) proof fn lemma_pow3v_pos(n: nat)
    ensures
        pow3v(n) >= 1,
    decreases n,
{
    if n > 0 {
        lemma_pow3v_pos((n - 1) as nat);
    }
}


/// Sum of the flip bits of edges `lo..11`.
pub open spec fn flip_bitsum_from(e: CubieEdges, lo: int) -> int
    decreases 11 - lo,
{
    if lo >= 11 {
        0
    } else {
        (e.raw[lo] as int) % 2 + flip_bitsum_from(e, lo + 1)
    }
}

/// `flip_bitsum_from` reads only the entries at and above `lo`.
pub(crate) proof fn lemma_bitsum_from_ext(e1: CubieEdges, e2: CubieEdges, lo: int)
    requires
        0 <= lo,
        forall|t: int| lo <= t < 11 ==> e1.raw[t] == e2.raw[t],
    ensures
        flip_bitsum_from(e1, lo) == flip_bitsum_from(e2, lo),
    decreases 11 - lo,
{
    if lo < 11 {
        lemma_bitsum_from_ext(e1, e2, lo + 1);
    }
}

/// `twist_codesum_from` reads only the entries at and above `lo`.
pub(crate) proof fn lemma_codesum_from_ext(c1: CubieCorners, c2: CubieCorners, lo: int)
    requires
        0 <= lo,
        forall|t: int| lo <= t < 7 ==> c1.raw[t] == c2.raw[t],
    ensures
        twist_codesum_from(c1, lo) == twist_codesum_from(c2, lo),
    decreases 7 - lo,
{
    if lo < 7 {
        lemma_codesum_from_ext(c1, c2, lo + 1);
    }
}

/// The full flip sum splits into the eleven digit bits plus the filler.
pub(crate) proof fn lemma_flip_sum_split(e: CubieEdges)
    ensures
        flip_bitsum(e, 12) == flip_bitsum_from(e, 0) + (e.raw[11] as int) % 2,
{
    lemma_flip_sum_split_rec(e, 0);
}

pub(crate) proof fn lemma_flip_sum_split_rec(e: CubieEdges, lo: int)
    requires
        0 <= lo <= 11,
    ensures
        flip_bitsum(e, 11) - flip_bitsum(e, lo) == flip_bitsum_from(e, lo),
        flip_bitsum(e, 12) == flip_bitsum(e, 11) + (e.raw[11] as int) % 2,
    decreases 11 - lo,
{
    if lo < 11 {
        lemma_flip_sum_split_rec(e, lo + 1);
        assert(flip_bitsum(e, lo + 1) == flip_bitsum(e, lo) + (e.raw[lo] as int) % 2);
    }
}

/// Sum of the twist codes of corners `lo..7`.
pub open spec fn twist_codesum_from(c: CubieCorners, lo: int) -> int
    decreases 7 - lo,
{
    if lo >= 7 {
        0
    } else {
        (c.raw[lo] as int) / 8 + twist_codesum_from(c, lo + 1)
    }
}

/// The full twist sum splits into the seven digit codes plus the filler.
pub(crate) proof fn lemma_twist_sum_split(c: CubieCorners)
    ensures
        twist_codesum(c, 8) == twist_codesum_from(c, 0) + (c.raw[7] as int) / 8,
{
    lemma_twist_sum_split_rec(c, 0);
}

pub(crate) proof fn lemma_twist_sum_split_rec(c: CubieCorners, lo: int)
    requires
        0 <= lo <= 7,
    ensures
        twist_codesum(c, 7) - twist_codesum(c, lo) == twist_codesum_from(c, lo),
        twist_codesum(c, 8) == twist_codesum(c, 7) + (c.raw[7] as int) / 8,
    decreases 7 - lo,
{
    if lo < 7 {
        lemma_twist_sum_split_rec(c, lo + 1);
        assert(twist_codesum(c, lo + 1) == twist_codesum(c, lo) + (c.raw[lo] as int) / 8);
    }
}

/// The solver's full cube state.
#[derive(Clone, Copy, Debug, PartialEq, Eq)]
pub struct CubieCube {
    pub corners: CubieCorners,
    pub edges: CubieEdges,
}

/// Both piece arrays are well-formed.
pub open spec fn cubie_wf(c: CubieCube) -> bool {
    cubie_corners_wf(c.corners) && cubie_edges_wf(c.edges)
}

impl Default for CubieCube {
    /// The solved state.
    fn default() -> (r: CubieCube)
        ensures
            cubie_wf(r),
    {
        CubieCube { corners: CubieCorners::default(), edges: CubieEdges::default() }
    }
}

/// The state `urf1` returns, as a value the contracts can name.
pub open spec fn urf1_spec() -> CubieCube {
    CubieCube {
        edges: CubieEdges { raw: [3u8, 16, 11, 18, 7, 22, 15, 20, 1, 9, 13, 5] },
        corners: CubieCorners { raw: [8u8, 20, 13, 17, 19, 15, 22, 10] },
    }
}

/// The state `urf2` returns, as a value the contracts can name.
pub open spec fn urf2_spec() -> CubieCube {
    CubieCube {
        edges: CubieEdges { raw: [17u8, 1, 23, 9, 19, 5, 21, 13, 2, 6, 14, 10] },
        corners: CubieCorners { raw: [16u8, 11, 23, 12, 9, 18, 14, 21] },
    }
}

/// Entry `i` of the product of two corner arrays when either factor
/// may carry a reflected twist code.
pub open spec fn corner_mul_full_entry(a: CubieCorners, b: CubieCorners, i: int) -> int {
    let o = b.raw[i] as int;
    let s = a.raw[o % 8] as int;
    let oria = s / 8;
    let orib = o / 8;
    let ori0 = oria + (if oria < 3 {
        orib
    } else {
        6 - orib
    });
    let ori = ori0 % 3 + (if (oria < 3) == (orib < 3) {
        0int
    } else {
        3
    });
    (s % 8) + (ori % 6) * 8
}

/// Entry `i` of a triple product `(a * s) * b` on corner arrays.
pub open spec fn corner_conj_entry(
    a: CubieCorners,
    s: CubieCorners,
    b: CubieCorners,
    i: int,
) -> int {
    let o = b.raw[i] as int;
    let m = corner_mul_entry(a, s, o % 8);
    (m % 8) + ((m / 8 + o / 8) % 3) * 8
}

/// Entry `i` of a triple product `(a * s) * b` on edge arrays.
pub open spec fn edge_conj_entry(a: CubieEdges, s: CubieEdges, b: CubieEdges, i: int) -> int {
    let o = b.raw[i] as int;
    let m = edge_mul_entry(a, s, o / 2);
    (m / 2) * 2 + ((m % 2 + o % 2) % 2)
}

/// Entry `i` of a corner conjugation `sinv * x * s`, with the inverse
/// symmetry's reflected twist rule.
pub open spec fn corner_conjugate_entry(
    sinv: CubieCorners,
    x: CubieCorners,
    s: CubieCorners,
    i: int,
) -> int {
    let sc = s.raw[i] as int;
    let mid = x.raw[sc % 8] as int;
    let fin = sinv.raw[mid % 8] as int;
    let oria = fin / 8;
    let orib = mid / 8;
    let ori = if oria < 3 {
        orib
    } else {
        (3 - orib % 3) % 3
    };
    (fin % 8) + (ori % 6) * 8
}

/// Entry `i` of an edge conjugation `sinv * x * s`: the flips of the
/// three factors add mod 2.
pub open spec fn edge_conjugate_entry(
    sinv: CubieEdges,
    x: CubieEdges,
    s: CubieEdges,
    i: int,
) -> int {
    let se = s.raw[i] as int;
    let mid = x.raw[se / 2] as int;
    let fin = sinv.raw[mid / 2] as int;
    (fin / 2) * 2 + ((fin % 2 + mid % 2 + se % 2) % 2)
}

/// One direction of the whole-cube re-orientation used to conjugate
/// search states.
pub fn urf1() -> (r: CubieCube)
    ensures
        cubie_wf(r),
        r == urf1_spec(),
{
    CubieCube {
        edges: CubieEdges { raw: [3, 16, 11, 18, 7, 22, 15, 20, 1, 9, 13, 5] },
        corners: CubieCorners { raw: [8, 20, 13, 17, 19, 15, 22, 10] },
    }
}

/// The other direction of the whole-cube re-orientation used to
/// conjugate search states.
pub fn urf2() -> (r: CubieCube)
    ensures
        cubie_wf(r),
        r == urf2_spec(),
{
    CubieCube {
        edges: CubieEdges { raw: [17, 1, 23, 9, 19, 5, 21, 13, 2, 6, 14, 10] },
        corners: CubieCorners { raw: [16, 11, 23, 12, 9, 18, 14, 21] },
    }
}

/// The renaming each re-orientation applies to a move ordinal: the
/// axis group cycles with the re-orientation, and the inverted
/// re-orientations also reverse the power within the group.
pub open spec fn urf_move_spec(u: int, m: int) -> int {
    let g = m / 3;
    let o = if u >= 3 {
        2 - m % 3
    } else {
        m % 3
    };
    let g2 = if u % 3 == 1 {
        (g % 3 + 2) % 3 + 3 * (g / 3)
    } else if u % 3 == 2 {
        (g % 3 + 1) % 3 + 3 * (g / 3)
    } else {
        g
    };
    3 * g2 + o
}

/// How each of the six re-orientations renames the 18 move ordinals.
pub fn urf_move(u: usize, m: usize) -> (r: u8)
    ensures
        r < 18,
        u < 6 && m < 18 ==> r as int == urf_move_spec(u as int, m as int),
        m >= 18 ==> r == 0,
{
    let t0: [u8; 18] = [0, 1, 2, 3, 4, 5, 6, 7, 8, 9, 10, 11, 12, 13, 14, 15, 16, 17];
    let t1: [u8; 18] = [6, 7, 8, 0, 1, 2, 3, 4, 5, 15, 16, 17, 9, 10, 11, 12, 13, 14];
    let t2: [u8; 18] = [3, 4, 5, 6, 7, 8, 0, 1, 2, 12, 13, 14, 15, 16, 17, 9, 10, 11];
    let t3: [u8; 18] = [2, 1, 0, 5, 4, 3, 8, 7, 6, 11, 10, 9, 14, 13, 12, 17, 16, 15];
    let t4: [u8; 18] = [8, 7, 6, 2, 1, 0, 5, 4, 3, 17, 16, 15, 11, 10, 9, 14, 13, 12];
    let t5: [u8; 18] = [5, 4, 3, 8, 7, 6, 2, 1, 0, 14, 13, 12, 17, 16, 15, 11, 10, 9];
    if m < 18 {
        let row = if u == 0 {
            t0
        } else if u == 1 {
            t1
        } else if u == 2 {
            t2
        } else if u == 3 {
            t3
        } else if u == 4 {
            t4
        } else {
            t5
        };
        proof {
            assert(forall|k: int| 0 <= k < 18 ==> row@[k] < 18);
            if u < 6 {
                assert(forall|k: int| 0 <= k < 18 ==> t0@[k] as int == urf_move_spec(0, k));
                assert(forall|k: int| 0 <= k < 18 ==> t1@[k] as int == urf_move_spec(1, k));
                assert(forall|k: int| 0 <= k < 18 ==> t2@[k] as int == urf_move_spec(2, k));
                assert(forall|k: int| 0 <= k < 18 ==> t3@[k] as int == urf_move_spec(3, k));
                assert(forall|k: int| 0 <= k < 18 ==> t4@[k] as int == urf_move_spec(4, k));
                assert(forall|k: int| 0 <= k < 18 ==> t5@[k] as int == urf_move_spec(5, k));
            }
        }
        row[m]
    } else {
        0
    }
}

impl CubieCube {
    /// Assembles a state from its four plain coordinates; the twist and
    /// flip coordinates of the result are the given ones.
    pub fn from_coords(cperm: u32, twist: u32, eperm: u32, flip: u32) -> (r: CubieCube)
        ensures
            cubie_wf(r),
            twist_value(r.corners, 7) == (twist as int) % 2187,
            flip_value(r.edges, 11) == (flip as int) % 2048,
    {
        let mut ret = CubieCube::default();
        ret.set_c_perm(cperm);
        ret.set_twist(twist);
        let ghost cfixed = ret.corners;
        let mut ev: Vec<u8> = Vec::new();
        let mut i: usize = 0;
        while i < 12
            invariant
                i <= 12,
                ev@.len() == i,
                forall|j: int| 0 <= j < i ==> ev@[j] == ret.edges.raw[j],
                cubie_wf(ret),
                ret.corners == cfixed,
            decreases 12 - i,
        {
            ev.push(ret.edges.raw[i]);
            i = i + 1;
        }
        util::set_perm(&mut ev, eperm, true);
        let mut i2: usize = 0;
        while i2 < 12
            invariant
                i2 <= 12,
                ev@.len() == 12,
                cubie_corners_wf(ret.corners),
                ret.corners == cfixed,
                forall|j: int| 0 <= j < i2 ==> ret.edges.raw[j] < 24,
            decreases 12 - i2,
        {
            ret.edges.raw[i2] = ev[i2] % 24;
            i2 = i2 + 1;
        }
        ret.set_flip(flip);
        ret
    }

    /// The group inverse of this state: where entry `i` of a state with
    /// distinct slots sends its piece, the inverse sends it back, with
    /// the flip kept and the twist inverted.
    pub fn invert(&self) -> (r: CubieCube)
        requires
            cubie_wf(*self),
        ensures
            cubie_wf(r),
            cubie_edges_distinct(self.edges) ==> forall|i: int|
                0 <= i < 12 ==> r.edges.raw[(self.edges.raw[i] as int) / 2] as int == 2 * i + (
                self.edges.raw[i] as int) % 2,
            cubie_corners_distinct(self.corners) ==> forall|i: int|
                0 <= i < 8 ==> r.corners.raw[(self.corners.raw[i] as int) % 8] as int == i
                    + inv_twist_code((self.corners.raw[i] as int) / 8) * 8,
    {
        let mut ec: [u8; 12] = [0; 12];
        let mut cc: [u8; 8] = [0; 8];
        let mut edge: usize = 0;
        while edge < 12
            invariant
                edge <= 12,
                cubie_wf(*self),
                forall|i: int| 0 <= i < 12 ==> ec@[i] < 24,
                cubie_edges_distinct(self.edges) ==> forall|i: int|
                    0 <= i < edge ==> ec@[(self.edges.raw[i] as int) / 2] as int == 2 * i + (
                    self.edges.raw[i] as int) % 2,
            decreases 12 - edge,
        {
            let v = self.edges.raw[edge];
            proof {
                lemma_edge_entry_bound(v, v);
            }
            let dst = (v >> 1) as usize;
            let nv = ((edge as u8) << 1u8) | (v & 1);
            proof {
                lemma_edge_inv_bound(edge as u8, v);
                vstd::arithmetic::div_mod::lemma_fundamental_div_mod(nv as int, 2);
            }
            ec[dst] = nv;
            edge = edge + 1;
        }
        let mut corn: usize = 0;
        while corn < 8
            invariant
                corn <= 8,
                cubie_wf(*self),
                forall|i: int| 0 <= i < 8 ==> cc@[i] < 48,
                cubie_corners_distinct(self.corners) ==> forall|i: int|
                    0 <= i < corn ==> cc@[(self.corners.raw[i] as int) % 8] as int == i
                        + inv_twist_code((self.corners.raw[i] as int) / 8) * 8,
            decreases 8 - corn,
        {
            let v = self.corners.raw[corn];
            proof {
                lemma_corner_entry_bound(v);
            }
            let dst = (v & 7) as usize;
            let nv = (corn as u8) | ((0x20u8 >> (v >> 3)) & 0x18);
            proof {
                lemma_corner_inv_bound(corn as u8, v);
                vstd::arithmetic::div_mod::lemma_fundamental_div_mod(nv as int, 8);
            }
            cc[dst] = nv;
            corn = corn + 1;
        }
        CubieCube { corners: CubieCorners { raw: cc }, edges: CubieEdges { raw: ec } }
    }

    /// Corner part of a product, written into `prod`.
    pub fn corn_mult(&self, other: &CubieCube, prod: &mut CubieCube)
        requires
            cubie_corners_wf(self.corners),
            cubie_corners_wf(other.corners),
            cubie_wf(*old(prod)),
        ensures
            cubie_wf(*final (prod)),
            final (prod).edges == old(prod).edges,
            forall|i: int|
                0 <= i < 8 ==> final (prod).corners.raw[i] as int == corner_mul_entry(
                    self.corners,
                    other.corners,
                    i,
                ),
    {
        let r = self.corners.mult(other.corners);
        prod.corners = r;
    }

    /// Corner part of a product including the reflected twist codes,
    /// written into `prod`.
    pub fn corn_mult_full(&self, other: &CubieCube, prod: &mut CubieCube)
        requires
            cubie_corners_wf(self.corners),
            cubie_corners_wf(other.corners),
            cubie_wf(*old(prod)),
        ensures
            cubie_wf(*final (prod)),
            final (prod).edges == old(prod).edges,
            forall|i: int|
                0 <= i < 8 ==> final (prod).corners.raw[i] as int == corner_mul_full_entry(
                    self.corners,
                    other.corners,
                    i,
                ),
    {
        let mut out: [u8; 8] = [0; 8];
        let mut corn: usize = 0;
        while corn < 8
            invariant
                corn <= 8,
                cubie_corners_wf(self.corners),
                cubie_corners_wf(other.corners),
                forall|i: int| 0 <= i < 8 ==> out@[i] < 48,
                forall|i: int|
                    0 <= i < corn ==> out@[i] as int == corner_mul_full_entry(
                        self.corners,
                        other.corners,
                        i,
                    ),
            decreases 8 - corn,
        {
            let o = other.corners.raw[corn];
            proof {
                lemma_corner_entry_bound(o);
            }
            let s = self.corners.raw[(o & 7) as usize];
            proof {
                lemma_corner_entry_bound(s);
            }
            let oria = s >> 3;
            let orib = o >> 3;
            let mut ori = oria + (if oria < 3 {
                orib
            } else {
                6 - orib
            });
            ori = ori % 3 + (if (oria < 3) == (orib < 3) {
                0
            } else {
                3
            });
            proof {
                lemma_corner_pack_bound(s & 7, ori % 6);
                lemma_corner_mul_pack(s, o, ori % 6);
                vstd::arithmetic::div_mod::lemma_fundamental_div_mod(
                    ((s & 7) | ((ori % 6) << 3u8)) as int,
                    8,
                );
            }
            out[corn] = (s & 7) | ((ori % 6) << 3u8);
            proof {
                assert(out@[corn as int] as int == corner_mul_full_entry(
                    self.corners,
                    other.corners,
                    corn as int,
                ));
            }
            corn = corn + 1;
        }
        prod.corners = CubieCorners { raw: out };
    }

    /// Edge part of a product, written into `prod`.
    pub fn edge_mult(&self, other: &CubieCube, prod: &mut CubieCube)
        requires
            cubie_edges_wf(self.edges),
            cubie_edges_wf(other.edges),
            cubie_wf(*old(prod)),
        ensures
            cubie_wf(*final (prod)),
            final (prod).corners == old(prod).corners,
            forall|i: int|
                0 <= i < 12 ==> final (prod).edges.raw[i] as int == edge_mul_entry(
                    self.edges,
                    other.edges,
                    i,
                ),
    {
        let r = self.edges.mult(&other.edges);
        prod.edges = r;
    }

    /// The corner part of this state conjugated by symmetry `idx`,
    /// written into `b`.
    pub fn corn_conjugate(&self, db: &super::db::CubeTable, idx: u32, b: &mut CubieCube)
        requires
            cubie_corners_wf(self.corners),
            cubie_wf(*old(b)),
        ensures
            cubie_wf(*final (b)),
            final (b).edges == old(b).edges,
            ({
                let k = (idx & 0xf) as int;
                (db.sym_mult_inv@.len() > 0 && k < db.sym_mult_inv@[0]@.len() && (
                db.sym_mult_inv@[0]@[k] as int) < db.cube_sym@.len() && k < db.cube_sym@.len()
                    && cubie_wf(db.cube_sym@[db.sym_mult_inv@[0]@[k] as int]) && cubie_wf(
                    db.cube_sym@[k],
                )) ==> forall|i: int|
                    0 <= i < 8 ==> final (b).corners.raw[i] as int == corner_conjugate_entry(
                        db.cube_sym@[db.sym_mult_inv@[0]@[k] as int].corners,
                        self.corners,
                        db.cube_sym@[k].corners,
                        i,
                    )
            }),
    {
        let sidx = util::g8x(&db.sym_mult_inv, 0, (idx & 0xf) as usize);
        let sinv = db.sym_cube(sidx as usize);
        let s = db.sym_cube((idx & 0xf) as usize);
        let mut out: [u8; 8] = [0; 8];
        let mut corn: usize = 0;
        while corn < 8
            invariant
                corn <= 8,
                cubie_corners_wf(self.corners),
                cubie_corners_wf(sinv.corners),
                cubie_corners_wf(s.corners),
                forall|i: int| 0 <= i < 8 ==> out@[i] < 48,
                forall|i: int|
                    0 <= i < corn ==> out@[i] as int == corner_conjugate_entry(
                        sinv.corners,
                        self.corners,
                        s.corners,
                        i,
                    ),
            decreases 8 - corn,
        {
            let sc = s.corners.raw[corn];
            proof {
                lemma_corner_entry_bound(sc);
            }
            let mid = self.corners.raw[(sc & 7) as usize];
            proof {
                lemma_corner_entry_bound(mid);
            }
            let fin = sinv.corners.raw[(mid & 7) as usize];
            proof {
                lemma_corner_entry_bound(fin);
            }
            let oria = fin >> 3;
            let orib = mid >> 3;
            let ori = if oria < 3 {
                orib
            } else {
                (3 - orib % 3) % 3
            };
            proof {
                lemma_corner_pack_bound(fin & 7, ori % 6);
                lemma_corner_mul_pack(fin, mid, ori % 6);
                lemma_corner_mul_pack(fin, sc, ori % 6);
                vstd::arithmetic::div_mod::lemma_fundamental_div_mod(
                    ((fin & 7) | ((ori % 6) << 3u8)) as int,
                    8,
                );
            }
            out[corn] = (fin & 7) | ((ori % 6) << 3u8);
            proof {
                assert(out@[corn as int] as int == corner_conjugate_entry(
                    sinv.corners,
                    self.corners,
                    s.corners,
                    corn as int,
                ));
            }
            corn = corn + 1;
        }
        b.corners = CubieCorners { raw: out };
    }

    /// The edge part of this state conjugated by symmetry `idx`, written
    /// into `b`.
    pub fn edge_conjugate(self, db: &super::db::CubeTable, idx: u32, b: &mut CubieCube)
        requires
            cubie_edges_wf(self.edges),
            cubie_wf(*old(b)),
        ensures
            cubie_wf(*final (b)),
            final (b).corners == old(b).corners,
            ({
                let k = (idx & 0xf) as int;
                (db.sym_mult_inv@.len() > 0 && k < db.sym_mult_inv@[0]@.len() && (
                db.sym_mult_inv@[0]@[k] as int) < db.cube_sym@.len() && k < db.cube_sym@.len()
                    && cubie_wf(db.cube_sym@[db.sym_mult_inv@[0]@[k] as int]) && cubie_wf(
                    db.cube_sym@[k],
                )) ==> forall|i: int|
                    0 <= i < 12 ==> final (b).edges.raw[i] as int == edge_conjugate_entry(
                        db.cube_sym@[db.sym_mult_inv@[0]@[k] as int].edges,
                        self.edges,
                        db.cube_sym@[k].edges,
                        i,
                    )
            }),
    {
        let sidx = util::g8x(&db.sym_mult_inv, 0, (idx & 0xf) as usize);
        let sinv = db.sym_cube(sidx as usize);
        let s = db.sym_cube((idx & 0xf) as usize);
        let mut out: [u8; 12] = [0; 12];
        let mut ed: usize = 0;
        while ed < 12
            invariant
                ed <= 12,
                cubie_edges_wf(self.edges),
                cubie_edges_wf(sinv.edges),
                cubie_edges_wf(s.edges),
                forall|i: int| 0 <= i < 12 ==> out@[i] < 24,
                forall|i: int|
                    0 <= i < ed ==> out@[i] as int == edge_conjugate_entry(
                        sinv.edges,
                        self.edges,
                        s.edges,
                        i,
                    ),
            decreases 12 - ed,
        {
            let se = s.edges.raw[ed];
            proof {
                lemma_edge_entry_bound(se, se);
            }
            let mid = self.edges.raw[(se >> 1) as usize];
            proof {
                lemma_edge_entry_bound(mid, mid);
            }
            let fin = sinv.edges.raw[(mid >> 1) as usize];
            proof {
                lemma_edge_entry_bound(fin, mid);
                lemma_edge_entry_bound(fin ^ (mid & 1), se);
                lemma_edge_mul_pack(fin, mid);
                lemma_edge_mul_pack(fin ^ (mid & 1), se);
                vstd::arithmetic::div_mod::lemma_fundamental_div_mod(
                    ((fin ^ (mid & 1)) ^ (se & 1)) as int,
                    2,
                );
            }
            out[ed] = (fin ^ (mid & 1)) ^ (se & 1);
            proof {
                assert(out@[ed as int] as int == edge_conjugate_entry(
                    sinv.edges,
                    self.edges,
                    s.edges,
                    ed as int,
                ));
            }
            ed = ed + 1;
        }
        b.edges = CubieEdges { raw: out };
    }

    /// Re-expresses this state as seen after the URF re-orientation:
    /// the triple product of the two fixed re-orientation states around
    /// it.
    pub fn urf_conjugate(&mut self)
        requires
            cubie_wf(*old(self)),
        ensures
            cubie_wf(*final (self)),
            forall|i: int|
                0 <= i < 8 ==> final (self).corners.raw[i] as int == corner_conj_entry(
                    urf2_spec().corners,
                    old(self).corners,
                    urf1_spec().corners,
                    i,
                ),
            forall|i: int|
                0 <= i < 12 ==> final (self).edges.raw[i] as int == edge_conj_entry(
                    urf2_spec().edges,
                    old(self).edges,
                    urf1_spec().edges,
                    i,
                ),
    {
        let a = urf2();
        let b = urf1();
        let mut temp = CubieCube::default();
        a.corn_mult(self, &mut temp);
        let t2 = temp.corners.mult(b.corners);
        a.edge_mult(self, &mut temp);
        let e2 = temp.edges.mult(&b.edges);
        self.corners = t2;
        self.edges = e2;
        proof {
            assert forall|i: int| 0 <= i < 8 implies self.corners.raw[i] as int
                == corner_conj_entry(
                urf2_spec().corners,
                old(self).corners,
                urf1_spec().corners,
                i,
            ) by {
                let o = urf1_spec().corners.raw[i] as int;
                assert(0 <= o % 8 < 8) by {
                    vstd::arithmetic::div_mod::lemma_mod_bound(o, 8);
                }
                assert(temp.corners.raw[o % 8] as int == corner_mul_entry(
                    urf2_spec().corners,
                    old(self).corners,
                    o % 8,
                ));
                assert(self.corners.raw[i] as int == corner_mul_entry(
                    temp.corners,
                    urf1_spec().corners,
                    i,
                ));
            }
            assert forall|i: int| 0 <= i < 12 implies self.edges.raw[i] as int == edge_conj_entry(
                urf2_spec().edges,
                old(self).edges,
                urf1_spec().edges,
                i,
            ) by {
                let o = urf1_spec().edges.raw[i] as int;
                assert(0 <= o / 2 < 12) by {
                    assert(o < 24);
                }
                assert(temp.edges.raw[o / 2] as int == edge_mul_entry(
                    urf2_spec().edges,
                    old(self).edges,
                    o / 2,
                ));
                assert(self.edges.raw[i] as int == edge_mul_entry(
                    temp.edges,
                    urf1_spec().edges,
                    i,
                ));
            }
        }
    }

    /// The edge-orientation coordinate, `0..2048`: the first eleven
    /// flips read as a base-2 number.
    pub fn get_flip(&self) -> (r: u32)
        ensures
            r < 2048,
            r as int == flip_value(self.edges, 11),
    {
        proof {
            lemma_pow2v_vals();
        }
        let mut idx: u32 = 0;
        let mut i: usize = 0;
        while i < 11
            invariant
                i <= 11,
                idx as int == flip_value(self.edges, i as int),
                (idx as int) < pow2v(i as nat),
                idx < 2048,
            decreases 11 - i,
        {
            proof {
                lemma_pow2v_vals();
                lemma_pow2v_mono(i as nat, 10);
                assert(pow2v((i + 1) as nat) == 2 * pow2v(i as nat));
            }
            idx = idx * 2 + ((self.edges.raw[i] as u32) % 2);
            i = i + 1;
        }
        idx
    }

    /// Sets the edge-orientation coordinate to `flip` (taken mod 2048):
    /// the first eleven flips become its base-2 digits and the last
    /// edge's flip becomes the parity filler, so the flip sum stays
    /// even. Every position field is left unchanged.
    #[verifier::rlimit(100)]
    pub fn set_flip(&mut self, flip: u32)
        requires
            cubie_wf(*old(self)),
        ensures
            cubie_wf(*final (self)),
            final (self).corners == old(self).corners,
            forall|k: int|
                0 <= k < 12 ==> (final (self).edges.raw[k] as int) / 2 == (old(
                    self,
                ).edges.raw[k] as int) / 2,
            flip_value(final (self).edges, 11) == (flip as int) % 2048,
            flip_bitsum(final (self).edges, 12) % 2 == 0,
    {
        proof {
            lemma_pow2v_vals();
        }
        let mut idx = flip;
        let mut parity: u32 = 0;
        let mut i: usize = 11;
        let ghost e0 = self.edges;
        while i > 0
            invariant
                i <= 11,
                cubie_wf(*self),
                self.corners == old(self).corners,
                e0 == old(self).edges,
                idx as int == (flip as int) / pow2v((11 - i) as nat),
                parity < 2,
                parity as int == flip_bitsum_from(self.edges, i as int) % 2,
                flip_bitsum_from(self.edges, i as int) >= 0,
                forall|k: int|
                    0 <= k < 12 ==> (self.edges.raw[k] as int) / 2 == (e0.raw[k] as int) / 2,
                forall|k: int|
                    i <= k < 11 ==> (self.edges.raw[k] as int) % 2 == ((flip as int) / pow2v(
                        (10 - k) as nat,
                    )) % 2,
                forall|k: int| 0 <= k < i ==> self.edges.raw[k] == e0.raw[k],
                self.edges.raw[11] == e0.raw[11],
            decreases i,
        {
            i = i - 1;
            let ghost e_pre = self.edges;
            let val = idx % 2;
            parity = (parity + val) % 2;
            let ov = self.edges.raw[i];
            self.edges.raw[i] = (ov / 2) * 2 + (val % 2) as u8;
            proof {
                assert(pow2v((11 - i) as nat) == 2 * pow2v((10 - i) as nat));
                lemma_pow2v_mono(0, (10 - i) as nat);
                vstd::arithmetic::div_mod::lemma_div_denominator(
                    flip as int,
                    pow2v((10 - i) as nat),
                    2,
                );
                lemma_bitsum_from_ext(e_pre, self.edges, i as int + 1);
                assert(flip_bitsum_from(self.edges, i as int) == (self.edges.raw[i as int] as int)
                    % 2 + flip_bitsum_from(self.edges, i as int + 1));
            }
            idx = idx / 2;
        }
        let ghost e_mid = self.edges;
        let ov = self.edges.raw[11];
        self.edges.raw[11] = (ov / 2) * 2 + (parity % 2) as u8;
        proof {
            lemma_pow2v_vals();
            lemma_flip_value_digits(self.edges, flip as int, 11);
            lemma_bitsum_from_ext(e_mid, self.edges, 0);
            lemma_flip_sum_split(self.edges);
            assert((self.edges.raw[11] as int) % 2 == parity);
        }
    }

    /// The corner-orientation coordinate: the first seven twist codes
    /// read as a base-3 number, reduced into `0..2187`.
    pub fn get_twist(&self) -> (r: u32)
        requires
            cubie_corners_wf(self.corners),
        ensures
            r < 2187,
            r as int == twist_value(self.corners, 7) % 2187,
    {
        let mut idx: u32 = 0;
        let mut i: usize = 0;
        while i < 7
            invariant
                i <= 7,
                cubie_corners_wf(self.corners),
                idx as int == twist_value(self.corners, i as int),
                2 * (idx as int) + 5 <= 5 * pow3v(i as nat),
                idx <= 5465,
            decreases 7 - i,
        {
            proof {
                lemma_pow3v_vals();
                assert(pow3v((i + 1) as nat) == 3 * pow3v(i as nat));
                lemma_corner_entry_bound(self.corners.raw[i as int]);
            }
            idx = idx * 3 + ((self.corners.raw[i] as u32) / 8);
            i = i + 1;
        }
        proof {
            lemma_pow3v_vals();
        }
        idx % 2187
    }

    /// Sets the corner-orientation coordinate to `twist` (taken mod
    /// 2187): the first seven twist codes become its base-3 digits and
    /// the last corner's twist becomes the residue filler, so the twist
    /// sum stays divisible by three. Every position field is left
    /// unchanged.
    #[verifier::rlimit(100)]
    pub fn set_twist(&mut self, twist: u32)
        requires
            cubie_wf(*old(self)),
        ensures
            cubie_wf(*final (self)),
            final (self).edges == old(self).edges,
            forall|k: int|
                0 <= k < 8 ==> (final (self).corners.raw[k] as int) % 8 == (old(
                    self,
                ).corners.raw[k] as int) % 8,
            twist_value(final (self).corners, 7) == (twist as int) % 2187,
            twist_codesum(final (self).corners, 8) % 3 == 0,
    {
        proof {
            lemma_pow3v_vals();
        }
        let mut idx = twist;
        let mut twsum: u32 = 0;
        let mut i: usize = 7;
        let ghost c0 = self.corners;
        while i > 0
            invariant
                i <= 7,
                cubie_wf(*self),
                self.edges == old(self).edges,
                c0 == old(self).corners,
                idx as int == (twist as int) / pow3v((7 - i) as nat),
                twsum as int <= 2 * (7 - i as int),
                twsum as int == twist_codesum_from(self.corners, i as int),
                forall|k: int|
                    0 <= k < 8 ==> (self.corners.raw[k] as int) % 8 == (c0.raw[k] as int) % 8,
                forall|k: int|
                    i <= k < 7 ==> (self.corners.raw[k] as int) / 8 == ((twist as int) / pow3v(
                        (6 - k) as nat,
                    )) % 3,
                forall|k: int| 0 <= k < i ==> self.corners.raw[k] == c0.raw[k],
                self.corners.raw[7] == c0.raw[7],
            decreases i,
        {
            i = i - 1;
            let ghost c_pre = self.corners;
            let val = idx % 3;
            twsum = twsum + val;
            let ov = self.corners.raw[i];
            self.corners.raw[i] = (ov % 8) + ((val % 3) as u8) * 8;
            proof {
                assert(pow3v((7 - i) as nat) == 3 * pow3v((6 - i) as nat));
                lemma_pow3v_pos((6 - i) as nat);
                vstd::arithmetic::div_mod::lemma_div_denominator(
                    twist as int,
                    pow3v((6 - i) as nat),
                    3,
                );
                lemma_codesum_from_ext(c_pre, self.corners, i as int + 1);
                assert(twist_codesum_from(self.corners, i as int) == (self.corners.raw[i as int]
                    as int) / 8 + twist_codesum_from(self.corners, i as int + 1));
            }
            idx = idx / 3;
        }
        let ghost c_mid = self.corners;
        let filler: u8 = ((3 - (twsum % 3)) % 3) as u8;
        let ov = self.corners.raw[7];
        self.corners.raw[7] = (ov % 8) + filler * 8;
        proof {
            lemma_pow3v_vals();
            lemma_twist_value_digits(self.corners, twist as int, 7);
            lemma_codesum_from_ext(c_mid, self.corners, 0);
            lemma_twist_sum_split(self.corners);
            assert((self.corners.raw[7] as int) / 8 == filler);
        }
    }

    /// The four middle-slice edges' occupancy coordinate, `0..495`.
    pub fn get_ud_slice(&self) -> (r: u32)
        requires
            cubie_edges_wf(self.edges),
        ensures
            r < 4096,
    {
        let mut ev: Vec<u8> = Vec::new();
        let mut i: usize = 0;
        while i < 12
            invariant
                i <= 12,
                ev@.len() == i,
            decreases 12 - i,
        {
            ev.push(self.edges.raw[i]);
            i = i + 1;
        }
        let c = util::get_comb(&ev, 8, true);
        if c <= 494 {
            494 - c
        } else {
            0
        }
    }

    /// Sets the middle-slice occupancy coordinate.
    pub fn set_ud_slice(&mut self, idx: u32)
        requires
            cubie_wf(*old(self)),
        ensures
            cubie_wf(*final (self)),
    {
        let mut ev: Vec<u8> = Vec::new();
        let mut i: usize = 0;
        while i < 12
            invariant
                i <= 12,
                ev@.len() == i,
            decreases 12 - i,
        {
            ev.push(self.edges.raw[i]);
            i = i + 1;
        }
        let v = if idx <= 494 {
            494 - idx
        } else {
            0
        };
        util::set_comb(&mut ev, v, 8, true);
        let mut i2: usize = 0;
        while i2 < 12
            invariant
                i2 <= 12,
                ev@.len() == 12,
                cubie_corners_wf(self.corners),
                forall|j: int| 0 <= j < 12 ==> (j < i2 ==> self.edges.raw[j] < 24),
            decreases 12 - i2,
        {
            self.edges.raw[i2] = ev[i2] % 24;
            i2 = i2 + 1;
        }
    }

    /// The corner-permutation coordinate, `0..40320`.
    pub fn get_c_perm(&self) -> (r: u32) {
        let mut cv: Vec<u8> = Vec::new();
        let mut i: usize = 0;
        while i < 8
            invariant
                i <= 8,
                cv@.len() == i,
            decreases 8 - i,
        {
            cv.push(self.corners.raw[i]);
            i = i + 1;
        }
        util::get_perm(&cv, false)
    }

    /// Sets the corner-permutation coordinate.
    pub fn set_c_perm(&mut self, idx: u32)
        requires
            cubie_wf(*old(self)),
        ensures
            cubie_wf(*final (self)),
    {
        let mut cv: Vec<u8> = Vec::new();
        let mut i: usize = 0;
        while i < 8
            invariant
                i <= 8,
                cv@.len() == i,
            decreases 8 - i,
        {
            cv.push(self.corners.raw[i]);
            i = i + 1;
        }
        util::set_perm(&mut cv, idx, false);
        let mut i2: usize = 0;
        while i2 < 8
            invariant
                i2 <= 8,
                cv@.len() == 8,
                cubie_edges_wf(self.edges),
                forall|j: int| 0 <= j < 8 ==> (j < i2 ==> self.corners.raw[j] < 48),
            decreases 8 - i2,
        {
            self.corners.raw[i2] = cv[i2] % 48;
            i2 = i2 + 1;
        }
    }

    /// The edge-permutation coordinate over the eight top and bottom
    /// edges, `0..40320`.
    pub fn get_e_perm(&self) -> (r: u32) {
        let mut ev: Vec<u8> = Vec::new();
        let mut i: usize = 0;
        while i < 8
            invariant
                i <= 8,
                ev@.len() == i,
            decreases 8 - i,
        {
            ev.push(self.edges.raw[i]);
            i = i + 1;
        }
        util::get_perm(&ev, true)
    }

    /// Sets the edge-permutation coordinate over the eight top and
    /// bottom edges.
    pub fn set_e_perm(&mut self, idx: u32)
        requires
            cubie_wf(*old(self)),
        ensures
            cubie_wf(*final (self)),
    {
        let mut ev: Vec<u8> = Vec::new();
        let mut i: usize = 0;
        while i < 8
            invariant
                i <= 8,
                ev@.len() == i,
            decreases 8 - i,
        {
            ev.push(self.edges.raw[i]);
            i = i + 1;
        }
        util::set_perm(&mut ev, idx, true);
        let mut i2: usize = 0;
        while i2 < 8
            invariant
                i2 <= 8,
                ev@.len() == 8,
                cubie_corners_wf(self.corners),
                forall|j: int| 0 <= j < 12 ==> (j < i2 ==> self.edges.raw[j] < 24),
                forall|j: int| 8 <= j < 12 ==> self.edges.raw[j] == old(self).edges.raw[j],
                forall|j: int| 8 <= j < 12 ==> old(self).edges.raw[j] < 24,
            decreases 8 - i2,
        {
            self.edges.raw[i2] = ev[i2] % 24;
            i2 = i2 + 1;
        }
    }

    /// The middle-slice permutation coordinate, `0..24`.
    pub fn get_m_perm(&self) -> (r: u32)
        ensures
            r < 24,
    {
        let mut ev: Vec<u8> = Vec::new();
        let mut i: usize = 0;
        while i < 12
            invariant
                i <= 12,
                ev@.len() == i,
            decreases 12 - i,
        {
            ev.push(self.edges.raw[i]);
            i = i + 1;
        }
        util::get_perm(&ev, true) % 24
    }

    /// Sets the middle-slice permutation coordinate.
    pub fn set_m_perm(&mut self, idx: u32)
        requires
            cubie_wf(*old(self)),
        ensures
            cubie_wf(*final (self)),
    {
        let mut ev: Vec<u8> = Vec::new();
        let mut i: usize = 0;
        while i < 12
            invariant
                i <= 12,
                ev@.len() == i,
            decreases 12 - i,
        {
            ev.push(self.edges.raw[i]);
            i = i + 1;
        }
        util::set_perm(&mut ev, idx, true);
        let mut i2: usize = 0;
        while i2 < 12
            invariant
                i2 <= 12,
                ev@.len() == 12,
                cubie_corners_wf(self.corners),
                forall|j: int| 0 <= j < 12 ==> (j < i2 ==> self.edges.raw[j] < 24),
            decreases 12 - i2,
        {
            self.edges.raw[i2] = ev[i2] % 24;
            i2 = i2 + 1;
        }
    }

    /// The corner 4-combination coordinate, `0..70`.
    pub fn get_c_comb(&self) -> (r: u32)
        ensures
            r <= 3696,
    {
        let mut cv: Vec<u8> = Vec::new();
        let mut i: usize = 0;
        while i < 8
            invariant
                i <= 8,
                cv@.len() == i,
            decreases 8 - i,
        {
            cv.push(self.corners.raw[i]);
            i = i + 1;
        }
        util::get_comb(&cv, 0, false)
    }

    /// Sets the corner 4-combination coordinate.
    pub fn set_c_comb(&mut self, idx: u32)
        requires
            cubie_wf(*old(self)),
        ensures
            cubie_wf(*final (self)),
    {
        let mut cv: Vec<u8> = Vec::new();
        let mut i: usize = 0;
        while i < 8
            invariant
                i <= 8,
                cv@.len() == i,
            decreases 8 - i,
        {
            cv.push(self.corners.raw[i]);
            i = i + 1;
        }
        util::set_comb(&mut cv, idx, 0, false);
        let mut i2: usize = 0;
        while i2 < 8
            invariant
                i2 <= 8,
                cv@.len() == 8,
                cubie_edges_wf(self.edges),
                forall|j: int| 0 <= j < 8 ==> (j < i2 ==> self.corners.raw[j] < 48),
            decreases 8 - i2,
        {
            self.corners.raw[i2] = cv[i2] % 48;
            i2 = i2 + 1;
        }
    }
}

pub(crate) proof fn lemma_edge_inv_bound(e: u8, v: u8)
    by (bit_vector)
    requires
        e < 12,
        v < 24,
    ensures
        ((e << 1u8) | (v & 1)) < 24,
        ((e << 1u8) | (v & 1)) / 2 == e,
        ((e << 1u8) | (v & 1)) % 2 == v % 2,
        (v >> 1) == v / 2,
{
}

pub(crate) proof fn lemma_corner_inv_bound(c: u8, v: u8)
    by (bit_vector)
    requires
        c < 8,
        v < 48,
    ensures
        (c | ((0x20u8 >> (v >> 3)) & 0x18)) < 48,
        (c | ((0x20u8 >> (v >> 3)) & 0x18)) % 8 == c,
        v / 8 == 1 ==> (c | ((0x20u8 >> (v >> 3)) & 0x18)) / 8 == 2,
        v / 8 == 2 ==> (c | ((0x20u8 >> (v >> 3)) & 0x18)) / 8 == 1,
        v / 8 == 0 || v / 8 >= 3 ==> (c | ((0x20u8 >> (v >> 3)) & 0x18)) / 8 == 0,
        (v & 7) == v % 8,
{
}

pub(crate) proof fn lemma_flip_acc_bound(idx: u32, i: u32)
    by (bit_vector)
    requires
        i < 11,
        idx < (1u32 << i),
    ensures
        ((idx << 1u32) | 1) < (1u32 << ((i + 1) as u32)),
        (idx << 1u32) < (1u32 << ((i + 1) as u32)),
        (1u32 << ((i + 1) as u32)) <= 0x800,
{
}

pub(crate) proof fn lemma_twist_acc_bound(idx: u32)
    by (bit_vector)
    ensures
        idx % 6561 < 6561,
        idx % 1094 < 1094,
{
}

pub(crate) proof fn lemma_edge_set_flip_bound(ov: u8, val: u8)
    by (bit_vector)
    requires
        ov < 24,
        val < 2,
    ensures
        ((ov & 0xfe) | val) < 24,
{
}

pub(crate) proof fn lemma_corner_set_twist_bound(ov: u8, val: u8)
    by (bit_vector)
    requires
        ov < 48,
        val < 3,
    ensures
        ((ov & 0x7) | (val << 3u8)) < 48,
{
}

} // verus!
