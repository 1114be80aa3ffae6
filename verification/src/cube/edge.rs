//! Edge permutation and orientation maps, packed twelve slots of five bits
//! into a `u64`.
//!
//! Slot `i` (bits `5*i .. 5*i+5`) stores where edge `i` sits and whether it
//! is flipped: bits 0..4 hold the position (an edge index `0..12`), bit 4
//! holds the flip. The top four bits of the word stay clear.
use crate::Face;
use crate::MapError;
use vstd::prelude::*;

verus! {

/// The single-edge orientation group. An edge is `Flipped` iff it cannot be
/// solved using only the `<R, U, L, D, F2, B2>` turns.
#[derive(Clone, Copy, Debug, PartialEq, Eq, Structural)]
pub enum Flip {
    Identity,
    Flipped,
}

pub open spec fn flip_index_spec(f: Flip) -> u64 {
    match f {
        Flip::Identity => 0,
        Flip::Flipped => 1,
    }
}

impl Flip {
    /// The ordinal of this flip, `0..2`.
    pub fn index(self) -> (r: u8)
        ensures
            r == flip_index_spec(self),
            r < 2,
    {
        match self {
            Flip::Identity => 0,
            Flip::Flipped => 1,
        }
    }

    /// The flip with the given ordinal.
    pub fn from_index(v: u8) -> (r: Flip)
        requires
            v < 2,
        ensures
            flip_index_spec(r) == v,
    {
        if v == 0 {
            Flip::Identity
        } else {
            Flip::Flipped
        }
    }
}

/// An edge slot on the 3x3 cube, named by the faces of the two adjacent
/// centers.
#[derive(Clone, Copy, Debug, PartialEq, Eq, Structural)]
pub enum Edge {
    /// The left & up edge.
    LU,
    /// The left & down edge.
    LD,
    /// The right & up edge.
    RU,
    /// The right & down edge.
    RD,
    /// The back & left edge.
    BL,
    /// The front & left edge.
    FL,
    /// The front & right edge.
    FR,
    /// The back & right edge.
    BR,
    /// The back & up edge.
    BU,
    /// The front & down edge.
    FD,
    /// The front & up edge.
    FU,
    /// The back & down edge.
    BD,
}

pub open spec fn edge_index_spec(e: Edge) -> u64 {
    match e {
        Edge::LU => 0,
        Edge::LD => 1,
        Edge::RU => 2,
        Edge::RD => 3,
        Edge::BL => 4,
        Edge::FL => 5,
        Edge::FR => 6,
        Edge::BR => 7,
        Edge::BU => 8,
        Edge::FD => 9,
        Edge::FU => 10,
        Edge::BD => 11,
    }
}

/// The two faces each edge slot touches, the side face first.
pub open spec fn edge_faces_spec(e: Edge) -> (Face, Face) {
    match e {
        Edge::LU => (Face::Left, Face::Up),
        Edge::LD => (Face::Left, Face::Down),
        Edge::RU => (Face::Right, Face::Up),
        Edge::RD => (Face::Right, Face::Down),
        Edge::BL => (Face::Back, Face::Left),
        Edge::FL => (Face::Front, Face::Left),
        Edge::FR => (Face::Front, Face::Right),
        Edge::BR => (Face::Back, Face::Right),
        Edge::BU => (Face::Back, Face::Up),
        Edge::FD => (Face::Front, Face::Down),
        Edge::FU => (Face::Front, Face::Up),
        Edge::BD => (Face::Back, Face::Down),
    }
}

/// The two faces of an edge are distinct and never an axis pair, and no
/// two edges share their unordered pair of faces.
pub proof fn lemma_edge_faces_distinct(e1: Edge, e2: Edge)
    ensures
        edge_faces_spec(e1).0 != edge_faces_spec(e1).1,
        edge_faces_spec(e1).1 != crate::face_opposite_spec(edge_faces_spec(e1).0),
        e1 != e2 ==> !(edge_faces_spec(e1) == edge_faces_spec(e2) || (edge_faces_spec(e1).0
            == edge_faces_spec(e2).1 && edge_faces_spec(e1).1 == edge_faces_spec(e2).0)),
{
}

pub open spec fn edge_from_index_spec(v: u64) -> Edge
    recommends
        v < 12,
{
    if v == 0 {
        Edge::LU
    } else if v == 1 {
        Edge::LD
    } else if v == 2 {
        Edge::RU
    } else if v == 3 {
        Edge::RD
    } else if v == 4 {
        Edge::BL
    } else if v == 5 {
        Edge::FL
    } else if v == 6 {
        Edge::FR
    } else if v == 7 {
        Edge::BR
    } else if v == 8 {
        Edge::BU
    } else if v == 9 {
        Edge::FD
    } else if v == 10 {
        Edge::FU
    } else {
        Edge::BD
    }
}

impl Edge {
    /// The ordinal of this edge, `0..12`.
    pub fn index(self) -> (r: u8)
        ensures
            r == edge_index_spec(self),
            r < 12,
    {
        match self {
            Edge::LU => 0,
            Edge::LD => 1,
            Edge::RU => 2,
            Edge::RD => 3,
            Edge::BL => 4,
            Edge::FL => 5,
            Edge::FR => 6,
            Edge::BR => 7,
            Edge::BU => 8,
            Edge::FD => 9,
            Edge::FU => 10,
            Edge::BD => 11,
        }
    }

    /// The edge with the given ordinal.
    pub fn from_index(v: u8) -> (r: Edge)
        requires
            v < 12,
        ensures
            r == edge_from_index_spec(v as u64),
            edge_index_spec(r) == v,
    {
        if v == 0 {
            Edge::LU
        } else if v == 1 {
            Edge::LD
        } else if v == 2 {
            Edge::RU
        } else if v == 3 {
            Edge::RD
        } else if v == 4 {
            Edge::BL
        } else if v == 5 {
            Edge::FL
        } else if v == 6 {
            Edge::FR
        } else if v == 7 {
            Edge::BR
        } else if v == 8 {
            Edge::BU
        } else if v == 9 {
            Edge::FD
        } else if v == 10 {
            Edge::FU
        } else {
            Edge::BD
        }
    }

    /// The two faces this edge slot touches: the side face first. The
    /// pair is distinct, never an axis pair, and names each edge
    /// uniquely.
    pub fn faces(self) -> (r: (Face, Face))
        ensures
            r == edge_faces_spec(self),
    {
        match self {
            Edge::LU => (Face::Left, Face::Up),
            Edge::LD => (Face::Left, Face::Down),
            Edge::RU => (Face::Right, Face::Up),
            Edge::RD => (Face::Right, Face::Down),
            Edge::BL => (Face::Back, Face::Left),
            Edge::FL => (Face::Front, Face::Left),
            Edge::FR => (Face::Front, Face::Right),
            Edge::BR => (Face::Back, Face::Right),
            Edge::BU => (Face::Back, Face::Up),
            Edge::FD => (Face::Front, Face::Down),
            Edge::FU => (Face::Front, Face::Up),
            Edge::BD => (Face::Back, Face::Down),
        }
    }

    /// The 12 edges in ordinal order.
    pub fn edges() -> (r: Vec<Edge>)
        ensures
            r@.len() == 12,
            forall|i: int| 0 <= i < 12 ==> r@[i] == edge_from_index_spec(i as u64),
    {
        let mut v: Vec<Edge> = Vec::new();
        let mut i: u8 = 0;
        while i < 12
            invariant
                i <= 12,
                v@.len() == i as int,
                forall|j: int| 0 <= j < i as int ==> v@[j] == edge_from_index_spec(j as u64),
            decreases 12 - i,
        {
            v.push(Edge::from_index(i));
            i = i + 1;
        }
        v
    }
}


/// The position field of slot `i`: which edge slot the piece sits in.
pub open spec fn epos(raw: u64, i: u64) -> u64 {
    (raw >> ((5 * i) as u64)) & 0xf
}

/// The flip field of slot `i`.
pub open spec fn eori(raw: u64, i: u64) -> u64 {
    (raw >> ((5 * i + 4) as u64)) & 1
}

/// The whole five-bit slot `i`.
pub open spec fn eslot(raw: u64, i: u64) -> u64 {
    (raw >> ((5 * i) as u64)) & 0x1f
}

/// Every position field names one of the twelve edge slots and the four
/// bits above the twelve slots are clear.
pub open spec fn edge_wf(raw: u64) -> bool {
    &&& forall|i: u64| i < 12 ==> #[trigger] epos(raw, i) < 12
    &&& (raw >> 60) == 0
}

/// The position fields form a permutation of `0..12`.
pub open spec fn edge_is_perm(raw: u64) -> bool {
    forall|i: u64, j: u64| i < j < 12 ==> epos(raw, i) != epos(raw, j)
}

/// Sum of the flip fields of slots `0..n`.
pub open spec fn eori_sum(raw: u64, n: int) -> int
    decreases n,
{
    if n <= 0 {
        0
    } else {
        eori_sum(raw, n - 1) + eori(raw, (n - 1) as u64)
    }
}

/// A raw word passes validation: well-formed fields, a bijective position
/// map, and an even flip sum.
pub open spec fn edge_valid(raw: u64) -> bool {
    edge_wf(raw) && edge_is_perm(raw) && eori_sum(raw, 12) % 2 == 0
}

/// Writing a fresh slot into the next free five bits keeps the slots
/// below it and leaves everything above it clear.
pub(crate) proof fn lemma_edge_put(acc: u64, v: u64, i: u64)
    by (bit_vector)
    requires
        i < 12,
        v < 32,
        (acc >> ((5 * i) as u64)) == 0,
    ensures
        forall|j: u64| j < i ==> #[trigger] eslot(acc | (v << ((5 * i) as u64)), j) == eslot(acc, j),
        eslot(acc | (v << ((5 * i) as u64)), i) == v,
        i < 11 ==> ((acc | (v << ((5 * i) as u64))) >> ((5 * (i + 1)) as u64)) == 0,
        i == 11 ==> ((acc | (v << ((5 * i) as u64))) >> 60) == 0,
{
}

/// A slot splits into its position and flip fields.
pub(crate) proof fn lemma_edge_slot_fields(raw: u64, i: u64)
    by (bit_vector)
    requires
        i < 12,
    ensures
        eslot(raw, i) & 0xf == epos(raw, i),
        (eslot(raw, i) >> 4) & 1 == eori(raw, i),
        eslot(raw, i) == epos(raw, i) + 16 * eori(raw, i),
        epos(raw, i) < 16,
        eori(raw, i) < 2,
        eslot(raw, i) < 32,
{
}

/// Two words with the same twelve slots and the same high bits are the
/// same word.
pub(crate) proof fn lemma_edge_eq_slots(a: u64, b: u64)
    by (bit_vector)
    requires
        eslot(a, 0) == eslot(b, 0),
        eslot(a, 1) == eslot(b, 1),
        eslot(a, 2) == eslot(b, 2),
        eslot(a, 3) == eslot(b, 3),
        eslot(a, 4) == eslot(b, 4),
        eslot(a, 5) == eslot(b, 5),
        eslot(a, 6) == eslot(b, 6),
        eslot(a, 7) == eslot(b, 7),
        eslot(a, 8) == eslot(b, 8),
        eslot(a, 9) == eslot(b, 9),
        eslot(a, 10) == eslot(b, 10),
        eslot(a, 11) == eslot(b, 11),
        (a >> 60) == (b >> 60),
    ensures
        a == b,
{
}

/// Packs twelve explicit slots into one word.
pub open spec fn edge_pack12(
    b0: u64,
    b1: u64,
    b2: u64,
    b3: u64,
    b4: u64,
    b5: u64,
    b6: u64,
    b7: u64,
    b8: u64,
    b9: u64,
    b10: u64,
    b11: u64,
) -> u64 {
    b0 | (b1 << 5u64) | (b2 << 10u64) | (b3 << 15u64) | (b4 << 20u64) | (b5 << 25u64) | (b6
        << 30u64) | (b7 << 35u64) | (b8 << 40u64) | (b9 << 45u64) | (b10 << 50u64) | (b11
        << 55u64)
}

/// Reading a slot back out of `edge_pack12`.
pub(crate) proof fn lemma_edge_pack12_slot(
    b0: u64,
    b1: u64,
    b2: u64,
    b3: u64,
    b4: u64,
    b5: u64,
    b6: u64,
    b7: u64,
    b8: u64,
    b9: u64,
    b10: u64,
    b11: u64,
    i: u64,
)
    by (bit_vector)
    requires
        b0 < 32,
        b1 < 32,
        b2 < 32,
        b3 < 32,
        b4 < 32,
        b5 < 32,
        b6 < 32,
        b7 < 32,
        b8 < 32,
        b9 < 32,
        b10 < 32,
        b11 < 32,
        i < 12,
    ensures
        eslot(edge_pack12(b0, b1, b2, b3, b4, b5, b6, b7, b8, b9, b10, b11), i) == (if i == 0 {
            b0
        } else if i == 1 {
            b1
        } else if i == 2 {
            b2
        } else if i == 3 {
            b3
        } else if i == 4 {
            b4
        } else if i == 5 {
            b5
        } else if i == 6 {
            b6
        } else if i == 7 {
            b7
        } else if i == 8 {
            b8
        } else if i == 9 {
            b9
        } else if i == 10 {
            b10
        } else {
            b11
        }),
        (edge_pack12(b0, b1, b2, b3, b4, b5, b6, b7, b8, b9, b10, b11) >> 60) == 0,
{
}

/// Packs twelve position/flip pairs into a raw edge word.
pub(crate) fn edge_pack(pos: &[u8; 12], ori: &[u8; 12]) -> (r: u64)
    requires
        forall|i: int| 0 <= i < 12 ==> pos[i] < 12,
        forall|i: int| 0 <= i < 12 ==> ori[i] < 2,
    ensures
        forall|i: u64| i < 12 ==> epos(r, i) == pos[i as int],
        forall|i: u64| i < 12 ==> eori(r, i) == ori[i as int],
        edge_wf(r),
{
    let mut raw: u64 = 0;
    let mut i: u64 = 0;
    proof {
        assert(0u64 >> 0u64 == 0u64) by (bit_vector);
    }
    while i < 12
        invariant
            i <= 12,
            forall|i0: int| 0 <= i0 < 12 ==> pos[i0] < 12,
            forall|i0: int| 0 <= i0 < 12 ==> ori[i0] < 2,
            i < 12 ==> (raw >> ((5 * i) as u64)) == 0,
            i == 12 ==> (raw >> 60) == 0,
            forall|j: u64| j < i ==> #[trigger] eslot(raw, j) == pos[j as int] + 16 * ori[j as int],
        decreases 12 - i,
    {
        let v: u64 = (pos[i as usize] as u64) | ((ori[i as usize] as u64) << 4u64);
        proof {
            let p = pos[i as int] as u64;
            let o = ori[i as int] as u64;
            assert(p < 12 && o < 2 ==> (p | (o << 4u64)) == p + 16 * o && (p | (o << 4u64)) < 32)
                by (bit_vector);
            lemma_edge_put(raw, v, i);
        }
        raw = raw | (v << (5 * i));
        i = i + 1;
    }
    proof {
        assert forall|i0: u64| i0 < 12 implies epos(raw, i0) == pos[i0 as int] && eori(raw, i0)
            == ori[i0 as int] by {
            lemma_edge_slot_fields(raw, i0);
        }
    }
    raw
}

/// Reads the twelve position/flip pairs out of a raw edge word.
pub(crate) fn edge_unpack(raw: u64) -> (r: ([u8; 12], [u8; 12]))
    ensures
        forall|i: u64| i < 12 ==> r.0[i as int] == epos(raw, i),
        forall|i: u64| i < 12 ==> r.1[i as int] == eori(raw, i),
        forall|i: int| 0 <= i < 12 ==> r.0[i] < 16 && r.1[i] < 2,
        edge_wf(raw) ==> forall|i: int| 0 <= i < 12 ==> r.0[i] < 12,
{
    let mut pos: [u8; 12] = [0; 12];
    let mut ori: [u8; 12] = [0; 12];
    let mut i: u64 = 0;
    while i < 12
        invariant
            i <= 12,
            forall|j: u64| j < i ==> #[trigger] pos@[j as int] as u64 == epos(raw, j),
            forall|j: u64| j < i ==> #[trigger] ori@[j as int] as u64 == eori(raw, j),
            forall|j: int| 0 <= j < 12 ==> pos@[j] < 16 && ori@[j] < 2,
        decreases 12 - i,
    {
        proof {
            lemma_edge_slot_fields(raw, i);
        }
        let p: u8 = ((raw >> (5 * i)) & 0xf) as u8;
        let o: u8 = ((raw >> (5 * i + 4)) & 1) as u8;
        pos[i as usize] = p;
        ori[i as usize] = o;
        i = i + 1;
    }
    (pos, ori)
}

/// The slot that multiplication writes at slot `i`.
pub open spec fn em_slot(a: u64, b: u64, i: u64) -> u64 {
    (epos(b, epos(a, i)) + 16 * ((eori(a, i) + eori(b, epos(a, i))) % 2)) as u64
}

/// The group product of two edge maps, as a raw word.
pub open spec fn em_mul_spec(a: u64, b: u64) -> u64 {
    edge_pack12(
        em_slot(a, b, 0),
        em_slot(a, b, 1),
        em_slot(a, b, 2),
        em_slot(a, b, 3),
        em_slot(a, b, 4),
        em_slot(a, b, 5),
        em_slot(a, b, 6),
        em_slot(a, b, 7),
        em_slot(a, b, 8),
        em_slot(a, b, 9),
        em_slot(a, b, 10),
        em_slot(a, b, 11),
    )
}

/// The identity edge map: every piece at home, unflipped.
pub open spec fn em_identity() -> u64 {
    edge_pack12(0, 1, 2, 3, 4, 5, 6, 7, 8, 9, 10, 11)
}

/// Field values of the product word.
pub(crate) proof fn lemma_em_mul_fields(a: u64, b: u64, i: u64)
    requires
        i < 12,
        edge_wf(a),
        edge_wf(b),
    ensures
        epos(em_mul_spec(a, b), i) == epos(b, epos(a, i)),
        eori(em_mul_spec(a, b), i) == (eori(a, i) + eori(b, epos(a, i))) % 2,
        epos(em_mul_spec(a, b), i) < 12,
{
    assert forall|j: u64| j < 12 implies em_slot(a, b, j) < 32 by {
        lemma_edge_slot_fields(a, j);
        lemma_edge_slot_fields(b, epos(a, j));
    }
    lemma_edge_slot_fields(a, i);
    lemma_edge_slot_fields(b, epos(a, i));
    lemma_edge_pack12_slot(
        em_slot(a, b, 0),
        em_slot(a, b, 1),
        em_slot(a, b, 2),
        em_slot(a, b, 3),
        em_slot(a, b, 4),
        em_slot(a, b, 5),
        em_slot(a, b, 6),
        em_slot(a, b, 7),
        em_slot(a, b, 8),
        em_slot(a, b, 9),
        em_slot(a, b, 10),
        em_slot(a, b, 11),
        i,
    );
    lemma_edge_slot_fields(em_mul_spec(a, b), i);
}

/// The product of well-formed edge maps is well-formed.
pub(crate) proof fn lemma_em_mul_wf(a: u64, b: u64)
    requires
        edge_wf(a),
        edge_wf(b),
    ensures
        edge_wf(em_mul_spec(a, b)),
{
    assert forall|i: u64| i < 12 implies #[trigger] epos(em_mul_spec(a, b), i) < 12 by {
        lemma_em_mul_fields(a, b, i);
    }
    assert forall|j: u64| j < 12 implies em_slot(a, b, j) < 32 by {
        lemma_edge_slot_fields(a, j);
        lemma_edge_slot_fields(b, epos(a, j));
    }
    lemma_edge_pack12_slot(
        em_slot(a, b, 0),
        em_slot(a, b, 1),
        em_slot(a, b, 2),
        em_slot(a, b, 3),
        em_slot(a, b, 4),
        em_slot(a, b, 5),
        em_slot(a, b, 6),
        em_slot(a, b, 7),
        em_slot(a, b, 8),
        em_slot(a, b, 9),
        em_slot(a, b, 10),
        em_slot(a, b, 11),
        0,
    );
}

/// The identity word's fields.
pub(crate) proof fn lemma_em_identity_fields(i: u64)
    requires
        i < 12,
    ensures
        epos(em_identity(), i) == i,
        eori(em_identity(), i) == 0,
        eslot(em_identity(), i) == i,
        edge_wf(em_identity()),
{
    lemma_edge_pack12_slot(0, 1, 2, 3, 4, 5, 6, 7, 8, 9, 10, 11, i);
    lemma_edge_slot_fields(em_identity(), i);
    assert(epos(em_identity(), i) + 16 * eori(em_identity(), i) == i);
    assert forall|j: u64| j < 12 implies #[trigger] epos(em_identity(), j) < 12 by {
        lemma_edge_pack12_slot(0, 1, 2, 3, 4, 5, 6, 7, 8, 9, 10, 11, j);
        lemma_edge_slot_fields(em_identity(), j);
        assert(epos(em_identity(), j) + 16 * eori(em_identity(), j) == j);
    }
}

/// `inv` undoes `a`: it returns every displaced piece and flip to home.
pub open spec fn edge_inv_rel(inv: u64, a: u64) -> bool {
    &&& edge_wf(inv)
    &&& forall|i: u64|
        i < 12 ==> (#[trigger] epos(inv, epos(a, i))) == i && eori(inv, epos(a, i)) == eori(a, i)
}

/// `m` is the fused inverse-then-multiply of `a` and `b`.
pub open spec fn edge_invmul_rel(m: u64, a: u64, b: u64) -> bool {
    &&& edge_wf(m)
    &&& forall|i: u64|
        i < 12 ==> (#[trigger] epos(m, epos(a, i))) == epos(b, i) && eori(m, epos(a, i)) == (eori(
            b,
            i,
        ) + eori(a, i)) % 2
}

/// Twelve pairwise distinct values below twelve cannot all avoid `k`.
proof fn lemma_pigeonhole12(s: Seq<int>, k: int)
    requires
        s.len() == 12,
        forall|a: int| 0 <= a < 12 ==> 0 <= #[trigger] s[a] < 12,
        forall|a: int, b: int| 0 <= a < b < 12 ==> s[a] != s[b],
        0 <= k < 12,
    ensures
        exists|a: int| 0 <= a < 12 && s[a] == k,
{
    broadcast use vstd::set::group_set_axioms;
    if !(exists|a: int| 0 <= a < 12 && s[a] == k) {
        assert(s.no_duplicates()) by {
            assert forall|a: int, b: int|
                0 <= a < s.len() && 0 <= b < s.len() && a != b implies s[a] != s[b] by {
                if a < b {
                    assert(s[a] != s[b]);
                } else {
                    assert(s[b] != s[a]);
                }
            }
        }
        s.unique_seq_to_set();
        let rng = vstd::set_lib::set_int_range(0, 12).remove(k);
        vstd::set_lib::lemma_int_range(0, 12);
        assert(vstd::set_lib::set_int_range(0, 12).contains(k));
        assert(rng.len() == 11);
        assert forall|x: int| s.to_set().contains(x) implies rng.contains(x) by {
            assert(s.contains(x));
            let a = choose|a: int| 0 <= a < s.len() && s[a] == x;
            assert(0 <= s[a] < 12);
            assert(x != k);
        }
        vstd::set_lib::lemma_len_subset(s.to_set(), rng);
        assert(false);
    }
}

/// An injective position map on twelve slots hits every slot.
pub proof fn lemma_edge_perm_onto(a: u64, k: u64)
    requires
        edge_wf(a),
        edge_is_perm(a),
        k < 12,
    ensures
        exists|i: u64| i < 12 && #[trigger] epos(a, i) == k,
{
    let s = Seq::new(12, |t: int| epos(a, t as u64) as int);
    lemma_pigeonhole12(s, k as int);
    let a0 = choose|t: int| 0 <= t < 12 && s[t] == k as int;
    assert(epos(a, a0 as u64) == k);
}


/// Edge piece mapping for the 3x3 cube: for each edge, the slot it
/// occupies and whether it is flipped, packed into one `u64`.
///
/// The primary way to manipulate a mapping is multiplying it by a turn or
/// by another mapping; multiplication is the group operation.
#[derive(Clone, Copy, Debug, PartialEq, Eq, Structural, Hash)]
pub struct EdgeMap {
    pub set: u64,
}

impl Default for EdgeMap {
    /// The identity map: the solved edge state.
    fn default() -> (r: EdgeMap)
        ensures
            r.set == em_identity(),
            edge_valid(em_identity()),
    {
        let pos: [u8; 12] = [0, 1, 2, 3, 4, 5, 6, 7, 8, 9, 10, 11];
        let ori: [u8; 12] = [0; 12];
        let set = edge_pack(&pos, &ori);
        proof {
            assert forall|i: u64| i < 12 implies #[trigger] eslot(set, i) == eslot(
                em_identity(),
                i,
            ) by {
                lemma_edge_slot_fields(set, i);
                lemma_em_identity_fields(i);
            }
            lemma_em_identity_fields(0);
            lemma_edge_eq_slots(set, em_identity());
            assert forall|i: u64, j: u64| i < j < 12 implies epos(em_identity(), i) != epos(
                em_identity(),
                j,
            ) by {
                lemma_em_identity_fields(i);
                lemma_em_identity_fields(j);
            }
            assert forall|n: int| 0 <= n <= 12 implies eori_sum(em_identity(), n) == 0 by {
                lemma_em_identity_sum_zero(n);
            }
        }
        EdgeMap { set }
    }
}

/// The identity word has flip sum zero up to any prefix.
pub(crate) proof fn lemma_em_identity_sum_zero(n: int)
    requires
        0 <= n <= 12,
    ensures
        eori_sum(em_identity(), n) == 0,
    decreases n,
{
    if n > 0 {
        lemma_em_identity_sum_zero(n - 1);
        lemma_em_identity_fields((n - 1) as u64);
    }
}

impl EdgeMap {
    /// Where the given edge sits and whether it is flipped.
    pub fn get(self, edge: Edge) -> (r: (Edge, Flip))
        requires
            edge_wf(self.set),
        ensures
            edge_index_spec(r.0) == epos(self.set, edge_index_spec(edge)),
            flip_index_spec(r.1) == eori(self.set, edge_index_spec(edge)),
    {
        let i = edge.index() as u64;
        proof {
            lemma_edge_slot_fields(self.set, i);
        }
        let p: u8 = ((self.set >> (5 * i)) & 0xf) as u8;
        let o: u8 = ((self.set >> (5 * i + 4)) & 1) as u8;
        (Edge::from_index(p), Flip::from_index(o))
    }

    /// The mapping as a list of `(edge, (position, flip))` entries in edge
    /// order.
    pub fn iter(self) -> (r: Vec<(Edge, (Edge, Flip))>)
        requires
            edge_wf(self.set),
        ensures
            r@.len() == 12,
            forall|i: int|
                0 <= i < 12 ==> r@[i].0 == edge_from_index_spec(i as u64) && edge_index_spec(
                    r@[i].1.0,
                ) == epos(self.set, i as u64) && flip_index_spec(r@[i].1.1) == eori(
                    self.set,
                    i as u64,
                ),
    {
        let mut v: Vec<(Edge, (Edge, Flip))> = Vec::new();
        let mut i: u8 = 0;
        while i < 12
            invariant
                i <= 12,
                edge_wf(self.set),
                v@.len() == i as int,
                forall|j: int|
                    0 <= j < i as int ==> v@[j].0 == edge_from_index_spec(j as u64)
                        && edge_index_spec(v@[j].1.0) == epos(self.set, j as u64)
                        && flip_index_spec(v@[j].1.1) == eori(self.set, j as u64),
            decreases 12 - i,
        {
            let e = Edge::from_index(i);
            let entry = self.get(e);
            v.push((e, entry));
            i = i + 1;
        }
        v
    }

    /// The group product `self * rhs`: apply `self` first, then `rhs`.
    pub fn multiply(self, rhs: EdgeMap) -> (r: EdgeMap)
        requires
            edge_wf(self.set),
            edge_wf(rhs.set),
        ensures
            r.set == em_mul_spec(self.set, rhs.set),
            edge_wf(r.set),
    {
        let (apos, aori) = edge_unpack(self.set);
        let (bpos, bori) = edge_unpack(rhs.set);
        let mut rpos: [u8; 12] = [0; 12];
        let mut rori: [u8; 12] = [0; 12];
        let mut i: u64 = 0;
        while i < 12
            invariant
                i <= 12,
                edge_wf(self.set),
                edge_wf(rhs.set),
                forall|j: u64| j < 12 ==> apos@[j as int] as u64 == epos(self.set, j),
                forall|j: u64| j < 12 ==> aori@[j as int] as u64 == eori(self.set, j),
                forall|j: u64| j < 12 ==> bpos@[j as int] as u64 == epos(rhs.set, j),
                forall|j: u64| j < 12 ==> bori@[j as int] as u64 == eori(rhs.set, j),
                forall|j: int| 0 <= j < 12 ==> apos@[j] < 12 && bpos@[j] < 12,
                forall|j: int| 0 <= j < 12 ==> aori@[j] < 2 && bori@[j] < 2,
                forall|j: int| 0 <= j < 12 ==> rpos@[j] < 12 && rori@[j] < 2,
                forall|j: u64|
                    j < i ==> rpos@[j as int] as u64 == epos(rhs.set, epos(self.set, j))
                        && rori@[j as int] as u64 == (eori(self.set, j) + eori(
                        rhs.set,
                        epos(self.set, j),
                    )) % 2,
            decreases 12 - i,
        {
            let p = apos[i as usize] as usize;
            rpos[i as usize] = bpos[p];
            rori[i as usize] = (aori[i as usize] + bori[p]) % 2;
            i = i + 1;
        }
        let set = edge_pack(&rpos, &rori);
        proof {
            assert forall|j: u64| j < 12 implies #[trigger] eslot(set, j) == eslot(
                em_mul_spec(self.set, rhs.set),
                j,
            ) by {
                lemma_edge_slot_fields(set, j);
                lemma_em_mul_fields(self.set, rhs.set, j);
                lemma_edge_slot_fields(em_mul_spec(self.set, rhs.set), j);
            }
            lemma_em_mul_wf(self.set, rhs.set);
            lemma_edge_eq_slots(set, em_mul_spec(self.set, rhs.set));
        }
        EdgeMap { set }
    }

    /// The group inverse: the map that returns every piece and flip home.
    pub fn inverse(self) -> (r: EdgeMap)
        requires
            edge_wf(self.set),
            edge_is_perm(self.set),
        ensures
            edge_inv_rel(r.set, self.set),
    {
        let (apos, aori) = edge_unpack(self.set);
        let mut rpos: [u8; 12] = [0; 12];
        let mut rori: [u8; 12] = [0; 12];
        let mut i: u64 = 0;
        while i < 12
            invariant
                i <= 12,
                edge_wf(self.set),
                edge_is_perm(self.set),
                forall|j: u64| j < 12 ==> apos@[j as int] as u64 == epos(self.set, j),
                forall|j: u64| j < 12 ==> aori@[j as int] as u64 == eori(self.set, j),
                forall|j: int| 0 <= j < 12 ==> apos@[j] < 12 && aori@[j] < 2,
                forall|j: int| 0 <= j < 12 ==> rpos@[j] < 12 && rori@[j] < 2,
                forall|j: u64|
                    #![trigger epos(self.set, j)]
                    j < i ==> rpos@[epos(self.set, j) as int] as u64 == j
                        && rori@[epos(self.set, j) as int] as u64 == eori(self.set, j),
            decreases 12 - i,
        {
            let p = apos[i as usize] as usize;
            proof {
                assert(p as u64 == epos(self.set, i));
                assert forall|j: u64| j < i implies epos(self.set, j) != epos(self.set, i) by {
                    assert(edge_is_perm(self.set));
                }
            }
            rpos[p] = i as u8;
            rori[p] = aori[i as usize];
            proof {
                assert(rpos@[epos(self.set, i) as int] as u64 == i);
                assert(rori@[epos(self.set, i) as int] as u64 == eori(self.set, i));
                assert forall|j: u64| #![trigger epos(self.set, j)] j < i implies rpos@[epos(
                    self.set,
                    j,
                ) as int] as u64 == j && rori@[epos(self.set, j) as int] as u64 == eori(
                    self.set,
                    j,
                ) by {
                    assert(epos(self.set, j) != epos(self.set, i));
                    assert(epos(self.set, j) as int != p as int);
                }
            }
            i = i + 1;
        }
        let set = edge_pack(&rpos, &rori);
        proof {
            assert forall|i0: u64| i0 < 12 implies (#[trigger] epos(set, epos(self.set, i0)))
                == i0 && eori(set, epos(self.set, i0)) == eori(self.set, i0) by {
                assert(epos(self.set, i0) < 12);
            }
        }
        EdgeMap { set }
    }

    /// `self.inverse() * rhs`, fused into one pass. Twice as fast as
    /// inverting and then multiplying.
    pub fn inverse_multiply(self, rhs: EdgeMap) -> (r: EdgeMap)
        requires
            edge_wf(self.set),
            edge_is_perm(self.set),
            edge_wf(rhs.set),
        ensures
            edge_invmul_rel(r.set, self.set, rhs.set),
    {
        let (apos, aori) = edge_unpack(self.set);
        let (bpos, bori) = edge_unpack(rhs.set);
        let mut rpos: [u8; 12] = [0; 12];
        let mut rori: [u8; 12] = [0; 12];
        let mut i: u64 = 0;
        while i < 12
            invariant
                i <= 12,
                edge_wf(self.set),
                edge_is_perm(self.set),
                edge_wf(rhs.set),
                forall|j: u64| j < 12 ==> apos@[j as int] as u64 == epos(self.set, j),
                forall|j: u64| j < 12 ==> aori@[j as int] as u64 == eori(self.set, j),
                forall|j: u64| j < 12 ==> bpos@[j as int] as u64 == epos(rhs.set, j),
                forall|j: u64| j < 12 ==> bori@[j as int] as u64 == eori(rhs.set, j),
                forall|j: int| 0 <= j < 12 ==> apos@[j] < 12 && aori@[j] < 2,
                forall|j: int| 0 <= j < 12 ==> bpos@[j] < 12 && bori@[j] < 2,
                forall|j: int| 0 <= j < 12 ==> rpos@[j] < 12 && rori@[j] < 2,
                forall|j: u64|
                    #![trigger epos(self.set, j)]
                    j < i ==> rpos@[epos(self.set, j) as int] as u64 == epos(rhs.set, j)
                        && rori@[epos(self.set, j) as int] as u64 == (eori(rhs.set, j) + eori(
                        self.set,
                        j,
                    )) % 2,
            decreases 12 - i,
        {
            let p = apos[i as usize] as usize;
            proof {
                assert(p as u64 == epos(self.set, i));
                assert forall|j: u64| j < i implies epos(self.set, j) != epos(self.set, i) by {
                    assert(edge_is_perm(self.set));
                }
            }
            rpos[p] = bpos[i as usize];
            rori[p] = (bori[i as usize] + aori[i as usize]) % 2;
            proof {
                assert(rpos@[epos(self.set, i) as int] as u64 == epos(rhs.set, i));
                assert(rori@[epos(self.set, i) as int] as u64 == (eori(rhs.set, i) + eori(
                    self.set,
                    i,
                )) % 2);
                assert forall|j: u64| #![trigger epos(self.set, j)] j < i implies rpos@[epos(
                    self.set,
                    j,
                ) as int] as u64 == epos(rhs.set, j) && rori@[epos(self.set, j) as int] as u64 == (
                eori(rhs.set, j) + eori(self.set, j)) % 2 by {
                    assert(epos(self.set, j) != epos(self.set, i));
                    assert(epos(self.set, j) as int != p as int);
                }
            }
            i = i + 1;
        }
        let set = edge_pack(&rpos, &rori);
        proof {
            assert forall|i0: u64| i0 < 12 implies (#[trigger] epos(set, epos(self.set, i0)))
                == epos(rhs.set, i0) && eori(set, epos(self.set, i0)) == (eori(rhs.set, i0) + eori(
                self.set,
                i0,
            )) % 2 by {
                assert(epos(self.set, i0) < 12);
            }
        }
        EdgeMap { set }
    }

    /// Whether this map is the solved edge state.
    pub fn is_solved(self) -> (r: bool)
        ensures
            r == (self.set == em_identity()),
    {
        let d = EdgeMap::default();
        self.set == d.set
    }

    /// The raw packed word.
    pub fn raw(self) -> (r: u64)
        ensures
            r == self.set,
    {
        self.set
    }

    /// Wraps a raw word without validating it. For values of internal
    /// origin, which the closed algebra keeps valid.
    pub fn from_raw_unchecked(raw: u64) -> (r: EdgeMap)
        ensures
            r.set == raw,
    {
        EdgeMap { set: raw }
    }

    /// Validates and wraps an untrusted raw word.
    pub fn from_raw(raw: u64) -> (r: Result<EdgeMap, MapError>)
        ensures
            r is Ok <==> edge_valid(raw),
            r is Ok ==> r->Ok_0.set == raw,
            !edge_wf(raw) ==> r == Err::<EdgeMap, MapError>(MapError::OutOfBounds),
            edge_wf(raw) && !edge_is_perm(raw) ==> r == Err::<EdgeMap, MapError>(
                MapError::Duplicate,
            ),
            edge_wf(raw) && edge_is_perm(raw) && eori_sum(raw, 12) % 2 != 0 ==> r == Err::<
                EdgeMap,
                MapError,
            >(MapError::Orientation),
    {
        let em = EdgeMap { set: raw };
        match em.validate() {
            Ok(_) => Ok(em),
            Err(e) => Err(e),
        }
    }

    /// Checks that the word encodes a legal edge state: fields in range, a
    /// bijective position map, and an even flip sum. A valid map may still
    /// belong to an unsolvable cube.
    pub fn validate(self) -> (r: Result<(), MapError>)
        ensures
            r is Ok <==> edge_valid(self.set),
            !edge_wf(self.set) ==> r == Err::<(), MapError>(MapError::OutOfBounds),
            edge_wf(self.set) && !edge_is_perm(self.set) ==> r == Err::<(), MapError>(
                MapError::Duplicate,
            ),
            edge_wf(self.set) && edge_is_perm(self.set) && eori_sum(self.set, 12) % 2 != 0 ==> r
                == Err::<(), MapError>(MapError::Orientation),
    {
        let raw = self.set;
        if (raw >> 60) != 0 {
            return Err(MapError::OutOfBounds);
        }
        let mut i: u64 = 0;
        while i < 12
            invariant
                raw == self.set,
                i <= 12,
                forall|j: u64| j < i ==> #[trigger] epos(raw, j) < 12,
            decreases 12 - i,
        {
            if ((raw >> (5 * i)) & 0xf) >= 12 {
                proof {
                    assert(epos(raw, i) >= 12);
                    assert(!edge_wf(raw));
                }
                return Err(MapError::OutOfBounds);
            }
            i = i + 1;
        }
        proof {
            assert(edge_wf(raw));
        }
        let (pos, _ori) = edge_unpack(raw);
        let mut seen: [bool; 12] = [false; 12];
        let mut i2: u64 = 0;
        while i2 < 12
            invariant
                raw == self.set,
                i2 <= 12,
                edge_wf(raw),
                forall|j: u64| j < 12 ==> pos@[j as int] as u64 == epos(raw, j),
                forall|j: int| 0 <= j < 12 ==> pos@[j] < 12,
                forall|k: u64|
                    k < 12 ==> (#[trigger] seen@[k as int] <==> exists|j: u64|
                        j < i2 && #[trigger] epos(raw, j) == k),
                forall|j1: u64, j2: u64| j1 < j2 < i2 ==> epos(raw, j1) != epos(raw, j2),
            decreases 12 - i2,
        {
            let p = pos[i2 as usize] as usize;
            if seen[p] {
                proof {
                    let j = choose|j: u64| j < i2 && #[trigger] epos(raw, j) == p as u64;
                    assert(epos(raw, j) == epos(raw, i2) && j < i2 < 12);
                    assert(!edge_is_perm(raw));
                }
                return Err(MapError::Duplicate);
            }
            seen[p] = true;
            proof {
                assert(seen@[p as int]);
                assert(epos(raw, i2) == p as u64);
                assert forall|k: u64| k < 12 implies (#[trigger] seen@[k as int] <==> exists|j: u64|
                    j < i2 + 1 && #[trigger] epos(raw, j) == k) by {
                    if k == p as u64 {
                        assert(epos(raw, i2) == k);
                    } else {
                        if exists|j: u64| j < i2 + 1 && #[trigger] epos(raw, j) == k {
                            let j = choose|j: u64| j < i2 + 1 && #[trigger] epos(raw, j) == k;
                            assert(j != i2);
                            assert(j < i2);
                        }
                    }
                }
            }
            i2 = i2 + 1;
        }
        proof {
            assert(edge_is_perm(raw));
        }
        let mut sum: u64 = 0;
        let mut i3: u64 = 0;
        while i3 < 12
            invariant
                raw == self.set,
                i3 <= 12,
                edge_wf(raw),
                sum == eori_sum(raw, i3 as int),
                sum <= i3,
            decreases 12 - i3,
        {
            proof {
                lemma_edge_slot_fields(raw, i3);
            }
            sum = sum + ((raw >> (5 * i3 + 4)) & 1);
            i3 = i3 + 1;
        }
        if sum % 2 != 0 {
            return Err(MapError::Orientation);
        }
        Ok(())
    }

    /// The flip residue of the whole map: the sum of all flips mod 2.
    /// `Identity` for every state reachable from solved.
    pub(crate) fn orientation_residue(self) -> (r: Flip)
        ensures
            flip_index_spec(r) == eori_sum(self.set, 12) % 2,
    {
        let raw = self.set;
        let mut sum: u64 = 0;
        let mut i: u64 = 0;
        while i < 12
            invariant
                raw == self.set,
                i <= 12,
                sum == eori_sum(raw, i as int),
                sum <= i,
            decreases 12 - i,
        {
            proof {
                lemma_edge_slot_fields(raw, i);
            }
            sum = sum + ((raw >> (5 * i + 4)) & 1);
            i = i + 1;
        }
        Flip::from_index((sum % 2) as u8)
    }

    /// The sign of the position permutation: `true` for an odd
    /// permutation, counted by inversions.
    pub fn permutation_parity(self) -> (r: bool)
        ensures
            r == edge_parity(self.set),
    {
        let raw = self.set;
        let mut total: u32 = 0;
        let mut k: u64 = 0;
        while k < 12
            invariant
                raw == self.set,
                k <= 12,
                total == einv_total(raw, k as int),
                total <= 12 * k,
            decreases 12 - k,
        {
            let mut row: u32 = 0;
            let mut j: u64 = 0;
            while j < k
                invariant
                    raw == self.set,
                    j <= k,
                    k < 12,
                    total == einv_total(raw, k as int),
                    total <= 12 * k,
                    row == einv_row(raw, k, j as int),
                    row <= j,
                decreases k - j,
            {
                proof {
                    lemma_edge_slot_fields(raw, j);
                    lemma_edge_slot_fields(raw, k);
                }
                if ((raw >> (5 * j)) & 0xf) > ((raw >> (5 * k)) & 0xf) {
                    row = row + 1;
                }
                j = j + 1;
            }
            total = total + row;
            k = k + 1;
        }
        total % 2 == 1
    }
}

/// Number of inversions that slot `k` forms with the slots before `j`.
pub open spec fn einv_row(raw: u64, k: u64, j: int) -> int
    decreases j,
{
    if j <= 0 {
        0
    } else {
        einv_row(raw, k, j - 1) + if epos(raw, (j - 1) as u64) > epos(raw, k) {
            1int
        } else {
            0
        }
    }
}

/// Number of inversions among the first `n` slots.
pub open spec fn einv_total(raw: u64, n: int) -> int
    decreases n,
{
    if n <= 0 {
        0
    } else {
        einv_total(raw, n - 1) + einv_row(raw, (n - 1) as u64, n - 1)
    }
}

/// The sign of the position permutation: odd iff the inversion count is
/// odd.
pub open spec fn edge_parity(raw: u64) -> bool {
    einv_total(raw, 12) % 2 == 1
}

/// Edge multiplication is associative.
///
/// Law: for all well-formed edge maps `a`, `b`, `c`:
/// `(a * b) * c == a * (b * c)`.
pub proof fn lemma_edge_mul_assoc(a: u64, b: u64, c: u64)
    requires
        edge_wf(a),
        edge_wf(b),
        edge_wf(c),
    ensures
        em_mul_spec(em_mul_spec(a, b), c) == em_mul_spec(a, em_mul_spec(b, c)),
{
    let ab = em_mul_spec(a, b);
    let bc = em_mul_spec(b, c);
    lemma_em_mul_wf(a, b);
    lemma_em_mul_wf(b, c);
    assert forall|i: u64| i < 12 implies #[trigger] eslot(em_mul_spec(ab, c), i) == eslot(
        em_mul_spec(a, bc),
        i,
    ) by {
        lemma_edge_slot_fields(a, i);
        let p = epos(a, i);
        lemma_em_mul_fields(a, b, i);
        lemma_edge_slot_fields(b, p);
        lemma_em_mul_fields(b, c, p);
        let q = epos(b, p);
        lemma_edge_slot_fields(c, q);
        lemma_em_mul_fields(ab, c, i);
        lemma_em_mul_fields(a, bc, i);
        lemma_edge_slot_fields(em_mul_spec(ab, c), i);
        lemma_edge_slot_fields(em_mul_spec(a, bc), i);
        let x = eori(a, i);
        let y = eori(b, p);
        let z = eori(c, q);
        assert(((x + y) % 2 + z) % 2 == (x + y + z) % 2) by (nonlinear_arith);
        assert((x + (y + z) % 2) % 2 == (x + y + z) % 2) by (nonlinear_arith);
    }
    lemma_em_mul_wf(ab, c);
    lemma_em_mul_wf(a, bc);
    assert((em_mul_spec(ab, c) >> 60) == (em_mul_spec(a, bc) >> 60));
    lemma_edge_eq_slots(em_mul_spec(ab, c), em_mul_spec(a, bc));
}

/// The identity is a right and a left unit for edge multiplication.
///
/// Law: for every well-formed edge map `a`:
/// `a * identity == a` and `identity * a == a`.
#[verifier::rlimit(100)]
pub proof fn lemma_edge_mul_identity(a: u64)
    requires
        edge_wf(a),
    ensures
        em_mul_spec(a, em_identity()) == a,
        em_mul_spec(em_identity(), a) == a,
{
    lemma_em_identity_fields(0);
    assert forall|i: u64| i < 12 implies #[trigger] eslot(em_mul_spec(a, em_identity()), i)
        == eslot(a, i) by {
        lemma_edge_slot_fields(a, i);
        lemma_em_identity_fields(i);
        lemma_em_identity_fields(epos(a, i));
        lemma_em_mul_fields(a, em_identity(), i);
        lemma_edge_slot_fields(em_mul_spec(a, em_identity()), i);
    }
    lemma_em_mul_wf(a, em_identity());
    lemma_edge_eq_slots(em_mul_spec(a, em_identity()), a);
    assert forall|i: u64| i < 12 implies #[trigger] eslot(em_mul_spec(em_identity(), a), i)
        == eslot(a, i) by {
        lemma_edge_slot_fields(a, i);
        lemma_em_identity_fields(i);
        lemma_em_mul_fields(em_identity(), a, i);
        lemma_edge_slot_fields(em_mul_spec(em_identity(), a), i);
    }
    lemma_em_mul_wf(em_identity(), a);
    lemma_edge_eq_slots(em_mul_spec(em_identity(), a), a);
}

/// Multiplying a map by its inverse gives the identity.
///
/// Law: for every valid edge map `a`: `a * a.inverse() == identity`.
pub proof fn lemma_edge_mul_inverse(a: u64, inv: u64)
    requires
        edge_wf(a),
        edge_inv_rel(inv, a),
    ensures
        em_mul_spec(a, inv) == em_identity(),
{
    assert forall|i: u64| i < 12 implies #[trigger] eslot(em_mul_spec(a, inv), i) == eslot(
        em_identity(),
        i,
    ) by {
        lemma_edge_slot_fields(a, i);
        lemma_em_identity_fields(i);
        lemma_em_mul_fields(a, inv, i);
        lemma_edge_slot_fields(em_mul_spec(a, inv), i);
        assert(epos(inv, epos(a, i)) == i && eori(inv, epos(a, i)) == eori(a, i));
        assert((eori(a, i) + eori(a, i)) % 2 == 0);
    }
    lemma_em_mul_wf(a, inv);
    lemma_em_identity_fields(0);
    lemma_edge_eq_slots(em_mul_spec(a, inv), em_identity());
}

/// The fused inverse-multiply agrees with inverting and then multiplying.
///
/// Law: for all edge maps `a`, `b`:
/// `a.inverse_multiply(b) == a.inverse() * b`.
pub proof fn lemma_edge_inverse_multiply(a: u64, inv: u64, b: u64, m: u64)
    requires
        edge_wf(a),
        edge_is_perm(a),
        edge_wf(b),
        edge_inv_rel(inv, a),
        edge_invmul_rel(m, a, b),
    ensures
        m == em_mul_spec(inv, b),
{
    assert forall|k: u64| k < 12 implies #[trigger] eslot(m, k) == eslot(em_mul_spec(inv, b), k) by {
        lemma_edge_perm_onto(a, k);
        let j = choose|j: u64| j < 12 && #[trigger] epos(a, j) == k;
        assert(j < 12 && epos(a, j) == k);
        assert(epos(inv, epos(a, j)) == j);
        assert(eori(inv, epos(a, j)) == eori(a, j));
        assert(epos(m, epos(a, j)) == epos(b, j));
        assert(eori(m, epos(a, j)) == (eori(b, j) + eori(a, j)) % 2);
        assert(epos(inv, k) == j && eori(inv, k) == eori(a, j));
        assert(epos(m, k) == epos(b, j) && eori(m, k) == (eori(b, j) + eori(a, j)) % 2);
        lemma_edge_slot_fields(a, j);
        lemma_edge_slot_fields(b, j);
        lemma_edge_slot_fields(m, k);
        lemma_em_mul_fields(inv, b, k);
        lemma_edge_slot_fields(em_mul_spec(inv, b), k);
        let x = eori(a, j);
        let y = eori(b, j);
        assert((x + y) % 2 == (y + x) % 2);
    }
    lemma_em_mul_wf(inv, b);
    lemma_edge_eq_slots(m, em_mul_spec(inv, b));
}


/// The product of two bijective maps is bijective: composition keeps the
/// position fields a permutation.
pub proof fn lemma_em_mul_perm(a: u64, b: u64)
    requires
        edge_wf(a),
        edge_wf(b),
        edge_is_perm(a),
        edge_is_perm(b),
    ensures
        edge_is_perm(em_mul_spec(a, b)),
{
    assert forall|i: u64, j: u64| i < j < 12 implies epos(em_mul_spec(a, b), i) != epos(
        em_mul_spec(a, b),
        j,
    ) by {
        lemma_em_mul_fields(a, b, i);
        lemma_em_mul_fields(a, b, j);
        let pi = epos(a, i);
        let pj = epos(a, j);
        assert(pi != pj);
        if pi < pj {
            assert(epos(b, pi) != epos(b, pj));
        } else {
            assert(epos(b, pj) != epos(b, pi));
        }
    }
}

} // verus!
