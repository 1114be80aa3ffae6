//! Corner permutation and orientation maps, packed eight slots to a `u64`.
//!
//! Slot `i` (bits `8*i .. 8*i+5`) stores where corner `i` sits and how it is
//! twisted: bits 0..3 hold the position (a corner index `0..8`), bits 3..5
//! hold the twist (`0..3`). The three top bits of every byte stay clear in a
//! well-formed map.
use crate::Face;
use crate::MapError;
use vstd::prelude::*;

verus! {

/// A corner slot of the 3x3 cube, named by the three faces it touches.
#[derive(Clone, Copy, Debug, PartialEq, Eq, Structural)]
pub enum Corner {
    URF,
    DRF,
    URB,
    DRB,
    ULF,
    DLF,
    ULB,
    DLB,
}

pub open spec fn corner_index_spec(c: Corner) -> u64 {
    match c {
        Corner::URF => 0,
        Corner::DRF => 1,
        Corner::URB => 2,
        Corner::DRB => 3,
        Corner::ULF => 4,
        Corner::DLF => 5,
        Corner::ULB => 6,
        Corner::DLB => 7,
    }
}

pub open spec fn corner_from_index_spec(v: u64) -> Corner
    recommends
        v < 8,
{
    if v == 0 {
        Corner::URF
    } else if v == 1 {
        Corner::DRF
    } else if v == 2 {
        Corner::URB
    } else if v == 3 {
        Corner::DRB
    } else if v == 4 {
        Corner::ULF
    } else if v == 5 {
        Corner::DLF
    } else if v == 6 {
        Corner::ULB
    } else {
        Corner::DLB
    }
}

impl Corner {
    /// The ordinal of this corner, `0..8`.
    pub fn index(self) -> (r: u8)
        ensures
            r == corner_index_spec(self),
            r < 8,
    {
        match self {
            Corner::URF => 0,
            Corner::DRF => 1,
            Corner::URB => 2,
            Corner::DRB => 3,
            Corner::ULF => 4,
            Corner::DLF => 5,
            Corner::ULB => 6,
            Corner::DLB => 7,
        }
    }

    /// The corner with the given ordinal.
    pub fn from_index(v: u8) -> (r: Corner)
        requires
            v < 8,
        ensures
            r == corner_from_index_spec(v as u64),
            corner_index_spec(r) == v,
    {
        if v == 0 {
            Corner::URF
        } else if v == 1 {
            Corner::DRF
        } else if v == 2 {
            Corner::URB
        } else if v == 3 {
            Corner::DRB
        } else if v == 4 {
            Corner::ULF
        } else if v == 5 {
            Corner::DLF
        } else if v == 6 {
            Corner::ULB
        } else {
            Corner::DLB
        }
    }

    /// The 8 corners in ordinal order.
    pub fn corners() -> (r: Vec<Corner>)
        ensures
            r@.len() == 8,
            forall|i: int| 0 <= i < 8 ==> r@[i] == corner_from_index_spec(i as u64),
    {
        let mut v: Vec<Corner> = Vec::new();
        let mut i: u8 = 0;
        while i < 8
            invariant
                i <= 8,
                v@.len() == i as int,
                forall|j: int| 0 <= j < i as int ==> v@[j] == corner_from_index_spec(j as u64),
            decreases 8 - i,
        {
            v.push(Corner::from_index(i));
            i = i + 1;
        }
        v
    }

    /// The face of this corner slot perpendicular to the y axis:
    /// `Face::Up` or `Face::Down`.
    pub fn y(self) -> (r: Face)
        ensures
            crate::face_index_spec(r) == corner_index_spec(self) % 2,
    {
        match self {
            Corner::URF | Corner::URB | Corner::ULF | Corner::ULB => Face::Up,
            Corner::DRF | Corner::DRB | Corner::DLF | Corner::DLB => Face::Down,
        }
    }

    /// The face of this corner slot perpendicular to the x axis:
    /// `Face::Right` or `Face::Left`.
    pub fn x(self) -> (r: Face)
        ensures
            crate::face_index_spec(r) == 4 + corner_index_spec(self) / 4,
    {
        match self {
            Corner::URF | Corner::DRF | Corner::URB | Corner::DRB => Face::Right,
            Corner::ULF | Corner::DLF | Corner::ULB | Corner::DLB => Face::Left,
        }
    }

    /// The face of this corner slot perpendicular to the z axis:
    /// `Face::Front` or `Face::Back`.
    pub fn z(self) -> (r: Face)
        ensures
            crate::face_index_spec(r) == 2 + (corner_index_spec(self) / 2) % 2,
    {
        match self {
            Corner::URF | Corner::DRF | Corner::ULF | Corner::DLF => Face::Front,
            Corner::URB | Corner::DRB | Corner::ULB | Corner::DLB => Face::Back,
        }
    }
}

/// A twist of one corner cubie: a rotation by 0, 1 or 2 thirds of a turn.
#[derive(Clone, Copy, Debug, PartialEq, Eq, Structural)]
pub enum Twist {
    Identity,
    Cw,
    Ccw,
}

pub open spec fn twist_index_spec(t: Twist) -> u64 {
    match t {
        Twist::Identity => 0,
        Twist::Cw => 1,
        Twist::Ccw => 2,
    }
}

pub open spec fn twist_from_index_spec(v: u64) -> Twist
    recommends
        v < 3,
{
    if v == 0 {
        Twist::Identity
    } else if v == 1 {
        Twist::Cw
    } else {
        Twist::Ccw
    }
}

impl Twist {
    /// The ordinal of this twist, `0..3`.
    pub fn index(self) -> (r: u8)
        ensures
            r == twist_index_spec(self),
            r < 3,
    {
        match self {
            Twist::Identity => 0,
            Twist::Cw => 1,
            Twist::Ccw => 2,
        }
    }

    /// The twist with the given ordinal.
    pub fn from_index(v: u8) -> (r: Twist)
        requires
            v < 3,
        ensures
            r == twist_from_index_spec(v as u64),
            twist_index_spec(r) == v,
    {
        if v == 0 {
            Twist::Identity
        } else if v == 1 {
            Twist::Cw
        } else {
            Twist::Ccw
        }
    }

    /// Whether this is the trivial twist.
    pub fn is_identity(self) -> (r: bool)
        ensures
            r == (self == Twist::Identity),
    {
        self == Twist::Identity
    }

    /// Whether this is the clockwise twist.
    pub fn is_cw(self) -> (r: bool)
        ensures
            r == (self == Twist::Cw),
    {
        self == Twist::Cw
    }

    /// Whether this is the counter-clockwise twist.
    pub fn is_ccw(self) -> (r: bool)
        ensures
            r == (self == Twist::Ccw),
    {
        self == Twist::Ccw
    }

    /// The twist that undoes this one.
    pub fn inverse(self) -> (r: Twist)
        ensures
            twist_index_spec(r) == (3 - twist_index_spec(self)) % 3,
    {
        match self {
            Twist::Identity => Twist::Identity,
            Twist::Cw => Twist::Ccw,
            Twist::Ccw => Twist::Cw,
        }
    }

    /// Composition in the cyclic group of order 3.
    pub fn multiply(self, rhs: Twist) -> (r: Twist)
        ensures
            twist_index_spec(r) == (twist_index_spec(self) + twist_index_spec(rhs)) % 3,
    {
        let v = (self.index() + rhs.index()) % 3;
        Twist::from_index(v)
    }
}

/// The position field of slot `i`: which corner slot the piece sits in.
pub open spec fn cpos(raw: u64, i: u64) -> u64 {
    (raw >> ((8 * i) as u64)) & 7
}

/// The twist field of slot `i`.
pub open spec fn cori(raw: u64, i: u64) -> u64 {
    (raw >> ((8 * i + 3) as u64)) & 3
}

/// The whole byte of slot `i`.
pub open spec fn cbyte(raw: u64, i: u64) -> u64 {
    (raw >> ((8 * i) as u64)) & 0xff
}

/// Every slot byte is `twist * 8 + position` with `twist < 3`: the three
/// top bits of each byte are clear and no twist field holds the unused
/// bit pattern.
pub open spec fn corner_wf(raw: u64) -> bool {
    forall|i: u64| i < 8 ==> #[trigger] cbyte(raw, i) < 24
}

/// The position fields form a permutation of `0..8`.
pub open spec fn corner_is_perm(raw: u64) -> bool {
    forall|i: u64, j: u64| i < j < 8 ==> cpos(raw, i) != cpos(raw, j)
}

/// Sum of the twist fields of slots `0..n`.
pub open spec fn cori_sum(raw: u64, n: int) -> int
    decreases n,
{
    if n <= 0 {
        0
    } else {
        cori_sum(raw, n - 1) + cori(raw, (n - 1) as u64)
    }
}

/// A raw word passes validation: well-formed fields, a bijective position
/// map, and a twist sum divisible by three.
pub open spec fn corner_valid(raw: u64) -> bool {
    corner_wf(raw) && corner_is_perm(raw) && cori_sum(raw, 8) % 3 == 0
}

/// Writing a fresh slot into the next free byte keeps the bytes below it
/// and leaves everything above it clear.
pub(crate) proof fn lemma_corner_put(acc: u64, v: u64, i: u64)
    by (bit_vector)
    requires
        i < 8,
        v < 32,
        (acc >> ((8 * i) as u64)) == 0,
    ensures
        forall|j: u64| j < i ==> #[trigger] cbyte(acc | (v << ((8 * i) as u64)), j) == cbyte(acc, j),
        cbyte(acc | (v << ((8 * i) as u64)), i) == v,
        i < 7 ==> ((acc | (v << ((8 * i) as u64))) >> ((8 * (i + 1)) as u64)) == 0,
{
}

/// A slot byte splits into its position and twist fields; when the byte is
/// in range the split is exact.
pub(crate) proof fn lemma_corner_byte_fields(raw: u64, i: u64)
    by (bit_vector)
    requires
        i < 8,
    ensures
        cbyte(raw, i) & 7 == cpos(raw, i),
        (cbyte(raw, i) >> 3) & 3 == cori(raw, i),
        cbyte(raw, i) < 24 ==> cbyte(raw, i) == cpos(raw, i) + 8 * cori(raw, i),
        cpos(raw, i) < 8,
        cori(raw, i) < 4,
        cbyte(raw, i) < 256,
{
}

/// Two words with the same eight slot bytes are the same word.
pub(crate) proof fn lemma_corner_eq_bytes(a: u64, b: u64)
    by (bit_vector)
    requires
        cbyte(a, 0) == cbyte(b, 0),
        cbyte(a, 1) == cbyte(b, 1),
        cbyte(a, 2) == cbyte(b, 2),
        cbyte(a, 3) == cbyte(b, 3),
        cbyte(a, 4) == cbyte(b, 4),
        cbyte(a, 5) == cbyte(b, 5),
        cbyte(a, 6) == cbyte(b, 6),
        cbyte(a, 7) == cbyte(b, 7),
    ensures
        a == b,
{
}

/// Packs eight position/twist pairs into a raw corner word.
pub(crate) fn corner_pack(pos: &[u8; 8], ori: &[u8; 8]) -> (r: u64)
    requires
        forall|i: int| 0 <= i < 8 ==> pos[i] < 8,
        forall|i: int| 0 <= i < 8 ==> ori[i] < 3,
    ensures
        forall|i: u64| i < 8 ==> cpos(r, i) == pos[i as int],
        forall|i: u64| i < 8 ==> cori(r, i) == ori[i as int],
        corner_wf(r),
{
    let mut raw: u64 = 0;
    let mut i: u64 = 0;
    proof {
        assert(0u64 >> 0u64 == 0u64) by (bit_vector);
    }
    while i < 8
        invariant
            i <= 8,
            forall|i0: int| 0 <= i0 < 8 ==> pos[i0] < 8,
            forall|i0: int| 0 <= i0 < 8 ==> ori[i0] < 3,
            i < 8 ==> (raw >> ((8 * i) as u64)) == 0,
            forall|j: u64| j < i ==> #[trigger] cbyte(raw, j) == pos[j as int] + 8 * ori[j as int],
        decreases 8 - i,
    {
        let v: u64 = (pos[i as usize] as u64) | ((ori[i as usize] as u64) << 3u64);
        proof {
            let p = pos[i as int] as u64;
            let o = ori[i as int] as u64;
            assert(p < 8 && o < 3 ==> (p | (o << 3u64)) == p + 8 * o && (p | (o << 3u64)) < 32)
                by (bit_vector);
            lemma_corner_put(raw, v, i);
        }
        raw = raw | (v << (8 * i));
        i = i + 1;
    }
    proof {
        assert forall|i0: u64| i0 < 8 implies cpos(raw, i0) == pos[i0 as int] && cori(raw, i0)
            == ori[i0 as int] && cbyte(raw, i0) < 24 by {
            lemma_corner_byte_fields(raw, i0);
        }
    }
    raw
}

/// Reads the eight position/twist pairs out of a raw corner word.
pub(crate) fn corner_unpack(raw: u64) -> (r: ([u8; 8], [u8; 8]))
    ensures
        forall|i: u64| i < 8 ==> r.0[i as int] == cpos(raw, i),
        forall|i: u64| i < 8 ==> r.1[i as int] == cori(raw, i),
        forall|i: int| 0 <= i < 8 ==> r.0[i] < 8 && r.1[i] < 4,
        corner_wf(raw) ==> forall|i: int| 0 <= i < 8 ==> r.1[i] < 3,
{
    let mut pos: [u8; 8] = [0; 8];
    let mut ori: [u8; 8] = [0; 8];
    let mut i: u64 = 0;
    while i < 8
        invariant
            i <= 8,
            forall|j: u64| j < i ==> #[trigger] pos@[j as int] as u64 == cpos(raw, j),
            forall|j: u64| j < i ==> #[trigger] ori@[j as int] as u64 == cori(raw, j),
            forall|j: int| 0 <= j < 8 ==> pos@[j] < 8 && ori@[j] < 4,
        decreases 8 - i,
    {
        proof {
            lemma_corner_byte_fields(raw, i);
        }
        let p: u8 = ((raw >> (8 * i)) & 7) as u8;
        let o: u8 = ((raw >> (8 * i + 3)) & 3) as u8;
        pos[i as usize] = p;
        ori[i as usize] = o;
        i = i + 1;
    }
    proof {
        if corner_wf(raw) {
            assert forall|i0: int| 0 <= i0 < 8 implies ori@[i0] < 3 by {
                lemma_corner_byte_fields(raw, i0 as u64);
                assert(cbyte(raw, i0 as u64) < 24);
            }
        }
    }
    (pos, ori)
}

/// Packs eight explicit slot bytes into one word.
pub open spec fn corner_pack8(
    b0: u64,
    b1: u64,
    b2: u64,
    b3: u64,
    b4: u64,
    b5: u64,
    b6: u64,
    b7: u64,
) -> u64 {
    b0 | (b1 << 8u64) | (b2 << 16u64) | (b3 << 24u64) | (b4 << 32u64) | (b5 << 40u64) | (b6
        << 48u64) | (b7 << 56u64)
}

/// Reading a slot byte back out of `corner_pack8`.
pub(crate) proof fn lemma_corner_pack8_byte(
    b0: u64,
    b1: u64,
    b2: u64,
    b3: u64,
    b4: u64,
    b5: u64,
    b6: u64,
    b7: u64,
    i: u64,
)
    by (bit_vector)
    requires
        b0 < 256,
        b1 < 256,
        b2 < 256,
        b3 < 256,
        b4 < 256,
        b5 < 256,
        b6 < 256,
        b7 < 256,
        i < 8,
    ensures
        cbyte(corner_pack8(b0, b1, b2, b3, b4, b5, b6, b7), i) == (if i == 0 {
            b0
        } else if i == 1 {
            b1
        } else if i == 2 {
            b2
        } else if i == 3 {
            b3
        } else if i == 4 {
            b4
        } else if i == 5 {
            b5
        } else if i == 6 {
            b6
        } else {
            b7
        }),
{
}

/// The slot byte that multiplication writes at slot `i`: the piece in slot
/// `i` of `a` moves on to where `b` sends its position, with the twists
/// added mod 3.
pub open spec fn cm_mul_byte(a: u64, b: u64, i: u64) -> u64 {
    (cpos(b, cpos(a, i)) + 8 * ((cori(a, i) + cori(b, cpos(a, i))) % 3)) as u64
}

/// The group product of two corner maps, as a raw word.
pub open spec fn cm_mul_spec(a: u64, b: u64) -> u64 {
    corner_pack8(
        cm_mul_byte(a, b, 0),
        cm_mul_byte(a, b, 1),
        cm_mul_byte(a, b, 2),
        cm_mul_byte(a, b, 3),
        cm_mul_byte(a, b, 4),
        cm_mul_byte(a, b, 5),
        cm_mul_byte(a, b, 6),
        cm_mul_byte(a, b, 7),
    )
}

/// The identity corner map: every piece at home, untwisted.
pub open spec fn cm_identity() -> u64 {
    corner_pack8(0, 1, 2, 3, 4, 5, 6, 7)
}

/// Field values of the product word.
pub(crate) proof fn lemma_cm_mul_fields(a: u64, b: u64, i: u64)
    requires
        i < 8,
    ensures
        cpos(cm_mul_spec(a, b), i) == cpos(b, cpos(a, i)),
        cori(cm_mul_spec(a, b), i) == (cori(a, i) + cori(b, cpos(a, i))) % 3,
        cbyte(cm_mul_spec(a, b), i) < 24,
{
    lemma_corner_byte_fields(a, i);
    lemma_corner_byte_fields(b, cpos(a, i));
    assert(cm_mul_byte(a, b, i) < 24);
    assert forall|j: u64| j < 8 implies cm_mul_byte(a, b, j) < 24 by {
        lemma_corner_byte_fields(a, j);
        lemma_corner_byte_fields(b, cpos(a, j));
    }
    lemma_corner_pack8_byte(
        cm_mul_byte(a, b, 0),
        cm_mul_byte(a, b, 1),
        cm_mul_byte(a, b, 2),
        cm_mul_byte(a, b, 3),
        cm_mul_byte(a, b, 4),
        cm_mul_byte(a, b, 5),
        cm_mul_byte(a, b, 6),
        cm_mul_byte(a, b, 7),
        i,
    );
    lemma_corner_byte_fields(cm_mul_spec(a, b), i);
}

/// The product word is well-formed.
pub(crate) proof fn lemma_cm_mul_wf(a: u64, b: u64)
    ensures
        corner_wf(cm_mul_spec(a, b)),
{
    assert forall|i: u64| i < 8 implies #[trigger] cbyte(cm_mul_spec(a, b), i) < 24 by {
        lemma_cm_mul_fields(a, b, i);
    }
}

/// The identity word's fields.
pub(crate) proof fn lemma_cm_identity_fields(i: u64)
    requires
        i < 8,
    ensures
        cpos(cm_identity(), i) == i,
        cori(cm_identity(), i) == 0,
        cbyte(cm_identity(), i) == i,
        corner_wf(cm_identity()),
{
    assert forall|j: u64| j < 8 implies #[trigger] cbyte(cm_identity(), j) == j by {
        lemma_corner_pack8_byte(0, 1, 2, 3, 4, 5, 6, 7, j);
    }
    assert forall|j: u64| j < 8 implies #[trigger] cbyte(cm_identity(), j) < 24 by {
        assert(cbyte(cm_identity(), j) == j);
    }
    lemma_corner_byte_fields(cm_identity(), i);
}

/// `inv` undoes `a`: it returns every displaced piece and twist to home.
pub open spec fn corner_inv_rel(inv: u64, a: u64) -> bool {
    &&& corner_wf(inv)
    &&& forall|i: u64|
        i < 8 ==> (#[trigger] cpos(inv, cpos(a, i))) == i && cori(inv, cpos(a, i)) == (3 - cori(
            a,
            i,
        )) % 3
}

/// `m` is the fused inverse-then-multiply of `a` and `b`: the piece that
/// `a` sends to slot `k` is sent where `b` sends it, with `a`'s twist
/// undone and `b`'s applied.
pub open spec fn corner_invmul_rel(m: u64, a: u64, b: u64) -> bool {
    &&& corner_wf(m)
    &&& forall|i: u64|
        i < 8 ==> (#[trigger] cpos(m, cpos(a, i))) == cpos(b, i) && cori(m, cpos(a, i)) == (cori(
            b,
            i,
        ) + 3 - cori(a, i)) % 3
}

/// An injective position map on eight slots hits every slot.
/// Eight pairwise distinct values below eight cannot all avoid `k`.
proof fn lemma_pigeonhole8(
    v0: u64,
    v1: u64,
    v2: u64,
    v3: u64,
    v4: u64,
    v5: u64,
    v6: u64,
    v7: u64,
    k: u64,
)
    by (bit_vector)
    requires
        v0 < 8 && v1 < 8 && v2 < 8 && v3 < 8 && v4 < 8 && v5 < 8 && v6 < 8 && v7 < 8,
        v0 != v1 && v0 != v2 && v0 != v3 && v0 != v4 && v0 != v5 && v0 != v6 && v0 != v7,
        v1 != v2 && v1 != v3 && v1 != v4 && v1 != v5 && v1 != v6 && v1 != v7,
        v2 != v3 && v2 != v4 && v2 != v5 && v2 != v6 && v2 != v7,
        v3 != v4 && v3 != v5 && v3 != v6 && v3 != v7,
        v4 != v5 && v4 != v6 && v4 != v7,
        v5 != v6 && v5 != v7,
        v6 != v7,
        k < 8,
    ensures
        v0 == k || v1 == k || v2 == k || v3 == k || v4 == k || v5 == k || v6 == k || v7 == k,
{
}

/// An injective position map on eight slots hits every slot.
#[verifier::rlimit(100)]
pub proof fn lemma_corner_perm_onto(a: u64, k: u64)
    requires
        corner_is_perm(a),
        k < 8,
    ensures
        exists|i: u64| i < 8 && #[trigger] cpos(a, i) == k,
{
    lemma_corner_byte_fields(a, 0);
    lemma_corner_byte_fields(a, 1);
    lemma_corner_byte_fields(a, 2);
    lemma_corner_byte_fields(a, 3);
    lemma_corner_byte_fields(a, 4);
    lemma_corner_byte_fields(a, 5);
    lemma_corner_byte_fields(a, 6);
    lemma_corner_byte_fields(a, 7);
    lemma_pigeonhole8(
        cpos(a, 0),
        cpos(a, 1),
        cpos(a, 2),
        cpos(a, 3),
        cpos(a, 4),
        cpos(a, 5),
        cpos(a, 6),
        cpos(a, 7),
        k,
    );
}

/// Corner multiplication is associative.
///
/// Law: for all corner maps `a`, `b`, `c`: `(a * b) * c == a * (b * c)`.
pub proof fn lemma_corner_mul_assoc(a: u64, b: u64, c: u64)
    ensures
        cm_mul_spec(cm_mul_spec(a, b), c) == cm_mul_spec(a, cm_mul_spec(b, c)),
{
    let ab = cm_mul_spec(a, b);
    let bc = cm_mul_spec(b, c);
    assert forall|i: u64| i < 8 implies #[trigger] cbyte(cm_mul_spec(ab, c), i) == cbyte(
        cm_mul_spec(a, bc),
        i,
    ) by {
        lemma_corner_byte_fields(a, i);
        let p = cpos(a, i);
        lemma_cm_mul_fields(a, b, i);
        lemma_corner_byte_fields(b, p);
        lemma_cm_mul_fields(b, c, p);
        let q = cpos(b, p);
        lemma_corner_byte_fields(c, q);
        lemma_cm_mul_fields(ab, c, i);
        lemma_cm_mul_fields(a, bc, i);
        lemma_corner_byte_fields(cm_mul_spec(ab, c), i);
        lemma_corner_byte_fields(cm_mul_spec(a, bc), i);
        let x = cori(a, i);
        let y = cori(b, p);
        let z = cori(c, q);
        assert(((x + y) % 3 + z) % 3 == (x + y + z) % 3) by (nonlinear_arith);
        assert((x + (y + z) % 3) % 3 == (x + y + z) % 3) by (nonlinear_arith);
    }
    lemma_corner_eq_bytes(cm_mul_spec(ab, c), cm_mul_spec(a, bc));
}

/// The identity is a right and a left unit for corner multiplication.
///
/// Law: for every well-formed corner map `a`:
/// `a * identity == a` and `identity * a == a`.
pub proof fn lemma_corner_mul_identity(a: u64)
    requires
        corner_wf(a),
    ensures
        cm_mul_spec(a, cm_identity()) == a,
        cm_mul_spec(cm_identity(), a) == a,
{
    assert forall|i: u64| i < 8 implies #[trigger] cbyte(cm_mul_spec(a, cm_identity()), i) == cbyte(
        a,
        i,
    ) by {
        lemma_corner_byte_fields(a, i);
        lemma_cm_identity_fields(i);
        lemma_cm_identity_fields(cpos(a, i));
        lemma_cm_mul_fields(a, cm_identity(), i);
        lemma_corner_byte_fields(cm_mul_spec(a, cm_identity()), i);
        assert(cori(a, i) < 3);
    }
    lemma_corner_eq_bytes(cm_mul_spec(a, cm_identity()), a);
    assert forall|i: u64| i < 8 implies #[trigger] cbyte(cm_mul_spec(cm_identity(), a), i) == cbyte(
        a,
        i,
    ) by {
        lemma_corner_byte_fields(a, i);
        lemma_cm_identity_fields(i);
        lemma_cm_mul_fields(cm_identity(), a, i);
        lemma_corner_byte_fields(cm_mul_spec(cm_identity(), a), i);
        assert(cori(a, i) < 3);
    }
    lemma_corner_eq_bytes(cm_mul_spec(cm_identity(), a), a);
}

/// Multiplying a map by its inverse gives the identity.
///
/// Law: for every valid corner map `a`: `a * a.inverse() == identity`.
pub proof fn lemma_corner_mul_inverse(a: u64, inv: u64)
    requires
        corner_wf(a),
        corner_inv_rel(inv, a),
    ensures
        cm_mul_spec(a, inv) == cm_identity(),
{
    assert forall|i: u64| i < 8 implies #[trigger] cbyte(cm_mul_spec(a, inv), i) == cbyte(
        cm_identity(),
        i,
    ) by {
        lemma_corner_byte_fields(a, i);
        lemma_cm_identity_fields(i);
        lemma_cm_mul_fields(a, inv, i);
        lemma_corner_byte_fields(cm_mul_spec(a, inv), i);
        assert(cpos(inv, cpos(a, i)) == i && cori(inv, cpos(a, i)) == (3 - cori(a, i)) % 3);
        assert((cori(a, i) + (3 - cori(a, i)) % 3) % 3 == 0);
    }
    lemma_corner_eq_bytes(cm_mul_spec(a, inv), cm_identity());
}

/// The fused inverse-multiply agrees with inverting and then multiplying.
///
/// Law: for all corner maps `a`, `b`:
/// `a.inverse_multiply(b) == a.inverse() * b`.
pub proof fn lemma_corner_inverse_multiply(a: u64, inv: u64, b: u64, m: u64)
    requires
        corner_wf(a),
        corner_is_perm(a),
        corner_inv_rel(inv, a),
        corner_invmul_rel(m, a, b),
    ensures
        m == cm_mul_spec(inv, b),
{
    assert forall|k: u64| k < 8 implies #[trigger] cbyte(m, k) == cm_mul_byte(inv, b, k) by {
        lemma_corner_perm_onto(a, k);
        let j = choose|j: u64| j < 8 && #[trigger] cpos(a, j) == k;
        assert(j < 8 && cpos(a, j) == k);
        assert(cpos(inv, cpos(a, j)) == j);
        assert(cori(inv, cpos(a, j)) == (3 - cori(a, j)) % 3);
        assert(cpos(m, cpos(a, j)) == cpos(b, j));
        assert(cori(m, cpos(a, j)) == (cori(b, j) + 3 - cori(a, j)) % 3);
        assert(cpos(inv, k) == j && cori(inv, k) == (3 - cori(a, j)) % 3);
        assert(cpos(m, k) == cpos(b, j) && cori(m, k) == (cori(b, j) + 3 - cori(a, j)) % 3);
        lemma_corner_byte_fields(a, j);
        lemma_corner_byte_fields(b, j);
        lemma_corner_byte_fields(m, k);
        let x = cori(a, j);
        let y = cori(b, j);
        assert(((3 - x) % 3 + y) % 3 == (y + 3 - x) % 3) by (nonlinear_arith)
            requires
                x < 3,
                y < 4,
        ;
        assert(cm_mul_byte(inv, b, k) == cpos(b, j) + 8 * ((cori(inv, k) + cori(b, j)) % 3));
        assert(cbyte(m, k) == cpos(m, k) + 8 * cori(m, k));
    }
    assert forall|k: u64| k < 8 implies #[trigger] cbyte(m, k) == cbyte(cm_mul_spec(inv, b), k) by {
        lemma_cm_mul_fields(inv, b, k);
        lemma_corner_byte_fields(cm_mul_spec(inv, b), k);
        lemma_corner_byte_fields(m, k);
    }
    lemma_corner_eq_bytes(m, cm_mul_spec(inv, b));
}

/// Index of the corner-orientation coordinate, `0 .. 3^7`.
#[derive(Clone, Copy, Debug, PartialEq, Eq, Structural)]
pub struct COIndex(pub u32);

impl COIndex {
    /// Number of distinct corner-orientation coordinates: `3^7`.
    pub const SIZE: u32 = 2187;
}

/// Index of the corner-permutation coordinate, `0 .. 8!`.
#[derive(Clone, Copy, Debug, PartialEq, Eq, Structural)]
pub struct CPIndex(pub u32);

impl CPIndex {
    /// Number of distinct corner-permutation coordinates: `8!`.
    pub const SIZE: u32 = 40320;
}

/// Corner piece mapping for the 3x3 cube: for each corner, the slot it
/// occupies and the twist it carries, packed into one `u64`.
#[derive(Clone, Copy, Debug, PartialEq, Eq, Structural, Hash)]
pub struct CornerMap {
    pub raw: u64,
}

impl Default for CornerMap {
    /// The identity map: the solved corner state.
    fn default() -> (r: CornerMap)
        ensures
            r.raw == cm_identity(),
            corner_valid(cm_identity()),
    {
        let pos: [u8; 8] = [0, 1, 2, 3, 4, 5, 6, 7];
        let ori: [u8; 8] = [0; 8];
        let raw = corner_pack(&pos, &ori);
        proof {
            assert forall|i: u64| i < 8 implies #[trigger] cbyte(raw, i) == cbyte(
                cm_identity(),
                i,
            ) by {
                lemma_corner_byte_fields(raw, i);
                lemma_cm_identity_fields(i);
            }
            lemma_corner_eq_bytes(raw, cm_identity());
            assert forall|i: u64, j: u64| i < j < 8 implies cpos(cm_identity(), i) != cpos(
                cm_identity(),
                j,
            ) by {
                lemma_cm_identity_fields(i);
                lemma_cm_identity_fields(j);
            }
            assert forall|n: int| 0 <= n <= 8 implies cori_sum(cm_identity(), n) == 0 by {
                lemma_cm_identity_sum_zero(n);
            }
        }
        CornerMap { raw }
    }
}

/// The identity word has twist sum zero up to any prefix.
pub(crate) proof fn lemma_cm_identity_sum_zero(n: int)
    requires
        0 <= n <= 8,
    ensures
        cori_sum(cm_identity(), n) == 0,
    decreases n,
{
    if n > 0 {
        lemma_cm_identity_sum_zero(n - 1);
        lemma_cm_identity_fields((n - 1) as u64);
    }
}

impl CornerMap {
    /// Where the given corner sits and how it is twisted.
    pub fn get(&self, corner: Corner) -> (r: (Corner, Twist))
        requires
            corner_wf(self.raw),
        ensures
            corner_index_spec(r.0) == cpos(self.raw, corner_index_spec(corner)),
            twist_index_spec(r.1) == cori(self.raw, corner_index_spec(corner)),
    {
        let i = corner.index() as u64;
        proof {
            lemma_corner_byte_fields(self.raw, i);
        }
        let p: u8 = ((self.raw >> (8 * i)) & 7) as u8;
        let o: u8 = ((self.raw >> (8 * i + 3)) & 3) as u8;
        (Corner::from_index(p), Twist::from_index(o))
    }

    /// The mapping as a list of `(corner, (position, twist))` entries in
    /// corner order.
    pub fn iter(self) -> (r: Vec<(Corner, (Corner, Twist))>)
        requires
            corner_wf(self.raw),
        ensures
            r@.len() == 8,
            forall|i: int|
                0 <= i < 8 ==> r@[i].0 == corner_from_index_spec(i as u64) && corner_index_spec(
                    r@[i].1.0,
                ) == cpos(self.raw, i as u64) && twist_index_spec(r@[i].1.1) == cori(
                    self.raw,
                    i as u64,
                ),
    {
        let mut v: Vec<(Corner, (Corner, Twist))> = Vec::new();
        let mut i: u8 = 0;
        while i < 8
            invariant
                i <= 8,
                corner_wf(self.raw),
                v@.len() == i as int,
                forall|j: int|
                    0 <= j < i as int ==> v@[j].0 == corner_from_index_spec(j as u64)
                        && corner_index_spec(v@[j].1.0) == cpos(self.raw, j as u64)
                        && twist_index_spec(v@[j].1.1) == cori(self.raw, j as u64),
            decreases 8 - i,
        {
            let c = Corner::from_index(i);
            let entry = self.get(c);
            v.push((c, entry));
            i = i + 1;
        }
        v
    }

    /// The group product `self * rhs`: apply `self` first, then `rhs`.
    pub fn multiply(self, rhs: CornerMap) -> (r: CornerMap)
        ensures
            r.raw == cm_mul_spec(self.raw, rhs.raw),
            corner_wf(r.raw),
    {
        let (apos, aori) = corner_unpack(self.raw);
        let (bpos, bori) = corner_unpack(rhs.raw);
        let mut rpos: [u8; 8] = [0; 8];
        let mut rori: [u8; 8] = [0; 8];
        let mut i: u64 = 0;
        while i < 8
            invariant
                i <= 8,
                forall|j: u64| j < 8 ==> apos@[j as int] as u64 == cpos(self.raw, j),
                forall|j: u64| j < 8 ==> aori@[j as int] as u64 == cori(self.raw, j),
                forall|j: u64| j < 8 ==> bpos@[j as int] as u64 == cpos(rhs.raw, j),
                forall|j: u64| j < 8 ==> bori@[j as int] as u64 == cori(rhs.raw, j),
                forall|j: int| 0 <= j < 8 ==> apos@[j] < 8 && bpos@[j] < 8,
                forall|j: int| 0 <= j < 8 ==> aori@[j] < 4 && bori@[j] < 4,
                forall|j: int| 0 <= j < 8 ==> rpos@[j] < 8 && rori@[j] < 3,
                forall|j: u64|
                    j < i ==> rpos@[j as int] as u64 == cpos(rhs.raw, cpos(self.raw, j))
                        && rori@[j as int] as u64 == (cori(self.raw, j) + cori(
                        rhs.raw,
                        cpos(self.raw, j),
                    )) % 3,
            decreases 8 - i,
        {
            let p = apos[i as usize] as usize;
            rpos[i as usize] = bpos[p];
            rori[i as usize] = (aori[i as usize] + bori[p]) % 3;
            i = i + 1;
        }
        let raw = corner_pack(&rpos, &rori);
        proof {
            assert forall|j: u64| j < 8 implies #[trigger] cbyte(raw, j) == cbyte(
                cm_mul_spec(self.raw, rhs.raw),
                j,
            ) by {
                lemma_corner_byte_fields(raw, j);
                lemma_cm_mul_fields(self.raw, rhs.raw, j);
                lemma_corner_byte_fields(cm_mul_spec(self.raw, rhs.raw), j);
            }
            lemma_corner_eq_bytes(raw, cm_mul_spec(self.raw, rhs.raw));
            lemma_cm_mul_wf(self.raw, rhs.raw);
        }
        CornerMap { raw }
    }

    /// The group inverse: the map that returns every piece and twist home.
    pub fn inverse(self) -> (r: CornerMap)
        requires
            corner_wf(self.raw),
            corner_is_perm(self.raw),
        ensures
            corner_inv_rel(r.raw, self.raw),
    {
        let (apos, aori) = corner_unpack(self.raw);
        let mut rpos: [u8; 8] = [0; 8];
        let mut rori: [u8; 8] = [0; 8];
        let mut i: u64 = 0;
        while i < 8
            invariant
                i <= 8,
                corner_wf(self.raw),
                corner_is_perm(self.raw),
                forall|j: u64| j < 8 ==> apos@[j as int] as u64 == cpos(self.raw, j),
                forall|j: u64| j < 8 ==> aori@[j as int] as u64 == cori(self.raw, j),
                forall|j: int| 0 <= j < 8 ==> apos@[j] < 8 && aori@[j] < 3,
                forall|j: int| 0 <= j < 8 ==> rpos@[j] < 8 && rori@[j] < 3,
                forall|j: u64|
                    #![trigger cpos(self.raw, j)]
                    j < i ==> rpos@[cpos(self.raw, j) as int] as u64 == j
                        && rori@[cpos(self.raw, j) as int] as u64 == (3 - cori(self.raw, j)) % 3,
            decreases 8 - i,
        {
            let p = apos[i as usize] as usize;
            proof {
                assert(p as u64 == cpos(self.raw, i));
                assert forall|j: u64| j < i implies cpos(self.raw, j) != cpos(self.raw, i) by {
                    assert(corner_is_perm(self.raw));
                }
            }
            rpos[p] = i as u8;
            rori[p] = (3 - aori[i as usize]) % 3;
            proof {
                assert(rpos@[cpos(self.raw, i) as int] as u64 == i);
                assert(rori@[cpos(self.raw, i) as int] as u64 == (3 - cori(self.raw, i)) % 3);
                assert forall|j: u64| #![trigger cpos(self.raw, j)] j < i implies rpos@[cpos(
                    self.raw,
                    j,
                ) as int] as u64 == j && rori@[cpos(self.raw, j) as int] as u64 == (3 - cori(
                    self.raw,
                    j,
                )) % 3 by {
                    assert(cpos(self.raw, j) != cpos(self.raw, i));
                    assert(cpos(self.raw, j) as int != p as int);
                }
            }
            i = i + 1;
        }
        let raw = corner_pack(&rpos, &rori);
        proof {
            assert forall|i0: u64| i0 < 8 implies (#[trigger] cpos(raw, cpos(self.raw, i0))) == i0
                && cori(raw, cpos(self.raw, i0)) == (3 - cori(self.raw, i0)) % 3 by {
                lemma_corner_byte_fields(self.raw, i0);
                assert(cpos(self.raw, i0) < 8);
            }
        }
        CornerMap { raw }
    }

    /// `self.inverse() * rhs`, fused into one pass.
    pub fn inverse_multiply(self, rhs: CornerMap) -> (r: CornerMap)
        requires
            corner_wf(self.raw),
            corner_is_perm(self.raw),
        ensures
            corner_invmul_rel(r.raw, self.raw, rhs.raw),
    {
        let (apos, aori) = corner_unpack(self.raw);
        let (bpos, bori) = corner_unpack(rhs.raw);
        let mut rpos: [u8; 8] = [0; 8];
        let mut rori: [u8; 8] = [0; 8];
        let mut i: u64 = 0;
        while i < 8
            invariant
                i <= 8,
                corner_wf(self.raw),
                corner_is_perm(self.raw),
                forall|j: u64| j < 8 ==> apos@[j as int] as u64 == cpos(self.raw, j),
                forall|j: u64| j < 8 ==> aori@[j as int] as u64 == cori(self.raw, j),
                forall|j: u64| j < 8 ==> bpos@[j as int] as u64 == cpos(rhs.raw, j),
                forall|j: u64| j < 8 ==> bori@[j as int] as u64 == cori(rhs.raw, j),
                forall|j: int| 0 <= j < 8 ==> apos@[j] < 8 && aori@[j] < 3 && bpos@[j] < 8
                    && bori@[j] < 4,
                forall|j: int| 0 <= j < 8 ==> rpos@[j] < 8 && rori@[j] < 3,
                forall|j: u64|
                    #![trigger cpos(self.raw, j)]
                    j < i ==> rpos@[cpos(self.raw, j) as int] as u64 == cpos(rhs.raw, j)
                        && rori@[cpos(self.raw, j) as int] as u64 == (cori(rhs.raw, j) + 3 - cori(
                        self.raw,
                        j,
                    )) % 3,
            decreases 8 - i,
        {
            let p = apos[i as usize] as usize;
            proof {
                assert(p as u64 == cpos(self.raw, i));
                assert forall|j: u64| j < i implies cpos(self.raw, j) != cpos(self.raw, i) by {
                    assert(corner_is_perm(self.raw));
                }
            }
            rpos[p] = bpos[i as usize];
            rori[p] = (bori[i as usize] + 3 - aori[i as usize]) % 3;
            proof {
                assert(rpos@[cpos(self.raw, i) as int] as u64 == cpos(rhs.raw, i));
                assert(rori@[cpos(self.raw, i) as int] as u64 == (cori(rhs.raw, i) + 3 - cori(
                    self.raw,
                    i,
                )) % 3);
                assert forall|j: u64| #![trigger cpos(self.raw, j)] j < i implies rpos@[cpos(
                    self.raw,
                    j,
                ) as int] as u64 == cpos(rhs.raw, j) && rori@[cpos(self.raw, j) as int] as u64 == (
                cori(rhs.raw, j) + 3 - cori(self.raw, j)) % 3 by {
                    assert(cpos(self.raw, j) != cpos(self.raw, i));
                    assert(cpos(self.raw, j) as int != p as int);
                }
            }
            i = i + 1;
        }
        let raw = corner_pack(&rpos, &rori);
        proof {
            assert forall|i0: u64| i0 < 8 implies (#[trigger] cpos(raw, cpos(self.raw, i0)))
                == cpos(rhs.raw, i0) && cori(raw, cpos(self.raw, i0)) == (cori(rhs.raw, i0) + 3
                - cori(self.raw, i0)) % 3 by {
                lemma_corner_byte_fields(self.raw, i0);
                assert(cpos(self.raw, i0) < 8);
            }
        }
        CornerMap { raw }
    }

    /// Whether this map is the solved corner state.
    pub fn is_solved(self) -> (r: bool)
        ensures
            r == (self.raw == cm_identity()),
    {
        let d = CornerMap::default();
        self.raw == d.raw
    }

    /// The raw packed word.
    pub fn raw(self) -> (r: u64)
        ensures
            r == self.raw,
    {
        self.raw
    }

    /// Wraps a raw word without validating it. For values of internal
    /// origin, which the closed algebra keeps valid.
    pub fn from_raw_unchecked(raw: u64) -> (r: CornerMap)
        ensures
            r.raw == raw,
    {
        CornerMap { raw }
    }

    /// Validates and wraps an untrusted raw word.
    pub fn from_raw(raw: u64) -> (r: Result<CornerMap, MapError>)
        ensures
            r is Ok <==> corner_valid(raw),
            r is Ok ==> r->Ok_0.raw == raw,
            !corner_wf(raw) ==> r == Err::<CornerMap, MapError>(MapError::OutOfBounds),
            corner_wf(raw) && !corner_is_perm(raw) ==> r == Err::<CornerMap, MapError>(
                MapError::Duplicate,
            ),
            corner_wf(raw) && corner_is_perm(raw) && cori_sum(raw, 8) % 3 != 0 ==> r == Err::<
                CornerMap,
                MapError,
            >(MapError::Orientation),
    {
        let cm = CornerMap { raw };
        match cm.validate() {
            Ok(_) => Ok(cm),
            Err(e) => Err(e),
        }
    }

    /// Checks that the word encodes a legal corner state: fields in range,
    /// a bijective position map, and a twist sum divisible by three. A
    /// valid map may still belong to an unsolvable cube.
    pub fn validate(self) -> (r: Result<(), MapError>)
        ensures
            r is Ok <==> corner_valid(self.raw),
            !corner_wf(self.raw) ==> r == Err::<(), MapError>(MapError::OutOfBounds),
            corner_wf(self.raw) && !corner_is_perm(self.raw) ==> r == Err::<(), MapError>(
                MapError::Duplicate,
            ),
            corner_wf(self.raw) && corner_is_perm(self.raw) && cori_sum(self.raw, 8) % 3 != 0
                ==> r == Err::<(), MapError>(MapError::Orientation),
    {
        let raw = self.raw;
        let mut i: u64 = 0;
        while i < 8
            invariant
                raw == self.raw,
                i <= 8,
                forall|j: u64| j < i ==> #[trigger] cbyte(raw, j) < 24,
            decreases 8 - i,
        {
            if ((raw >> (8 * i)) & 0xff) >= 24 {
                proof {
                    assert(cbyte(raw, i) >= 24);
                    assert(!corner_wf(raw));
                }
                return Err(MapError::OutOfBounds);
            }
            i = i + 1;
        }
        proof {
            assert(corner_wf(raw));
        }
        let (pos, _ori) = corner_unpack(raw);
        let mut seen: [bool; 8] = [false; 8];
        let mut i2: u64 = 0;
        while i2 < 8
            invariant
                raw == self.raw,
                i2 <= 8,
                corner_wf(raw),
                forall|j: u64| j < 8 ==> pos@[j as int] as u64 == cpos(raw, j),
                forall|j: int| 0 <= j < 8 ==> pos@[j] < 8,
                forall|k: u64|
                    k < 8 ==> (#[trigger] seen@[k as int] <==> exists|j: u64|
                        j < i2 && #[trigger] cpos(raw, j) == k),
                forall|j1: u64, j2: u64| j1 < j2 < i2 ==> cpos(raw, j1) != cpos(raw, j2),
            decreases 8 - i2,
        {
            let p = pos[i2 as usize] as usize;
            if seen[p] {
                proof {
                    let j = choose|j: u64| j < i2 && #[trigger] cpos(raw, j) == p as u64;
                    assert(cpos(raw, j) == cpos(raw, i2) && j < i2 < 8);
                    assert(!corner_is_perm(raw));
                }
                return Err(MapError::Duplicate);
            }
            seen[p] = true;
            proof {
                assert(seen@[p as int]);
                assert(cpos(raw, i2) == p as u64);
                assert forall|k: u64| k < 8 implies (#[trigger] seen@[k as int] <==> exists|j: u64|
                    j < i2 + 1 && #[trigger] cpos(raw, j) == k) by {
                    if k == p as u64 {
                        assert(cpos(raw, i2) == k);
                    } else {
                        if exists|j: u64| j < i2 + 1 && #[trigger] cpos(raw, j) == k {
                            let j = choose|j: u64| j < i2 + 1 && #[trigger] cpos(raw, j) == k;
                            assert(j != i2);
                            assert(j < i2);
                        }
                    }
                }
            }
            i2 = i2 + 1;
        }
        proof {
            assert(corner_is_perm(raw));
        }
        let mut sum: u64 = 0;
        let mut i3: u64 = 0;
        while i3 < 8
            invariant
                raw == self.raw,
                i3 <= 8,
                corner_wf(raw),
                sum == cori_sum(raw, i3 as int),
                sum <= 3 * i3,
            decreases 8 - i3,
        {
            proof {
                lemma_corner_byte_fields(raw, i3);
            }
            sum = sum + ((raw >> (8 * i3 + 3)) & 3);
            i3 = i3 + 1;
        }
        if sum % 3 != 0 {
            return Err(MapError::Orientation);
        }
        Ok(())
    }

    /// The twist residue of the whole map: the sum of all twists mod 3.
    /// Zero for every state reachable from solved.
    pub(crate) fn orientation_residue(self) -> (r: Twist)
        ensures
            twist_index_spec(r) == cori_sum(self.raw, 8) % 3,
    {
        let raw = self.raw;
        let mut sum: u64 = 0;
        let mut i: u64 = 0;
        while i < 8
            invariant
                i <= 8,
                sum == cori_sum(raw, i as int),
                sum <= 3 * i,
            decreases 8 - i,
        {
            proof {
                lemma_corner_byte_fields(raw, i);
            }
            sum = sum + ((raw >> (8 * i + 3)) & 3);
            i = i + 1;
        }
        Twist::from_index((sum % 3) as u8)
    }

    /// The sign of the position permutation: `true` for an odd
    /// permutation, counted by inversions.
    pub fn permutation_parity(self) -> (r: bool)
        ensures
            r == corner_parity(self.raw),
    {
        let raw = self.raw;
        let mut total: u32 = 0;
        let mut k: u64 = 0;
        while k < 8
            invariant
                k <= 8,
                total == cinv_total(raw, k as int),
                total <= 8 * k,
            decreases 8 - k,
        {
            let mut row: u32 = 0;
            let mut j: u64 = 0;
            while j < k
                invariant
                    j <= k,
                    k < 8,
                    total == cinv_total(raw, k as int),
                    total <= 8 * k,
                    row == cinv_row(raw, k, j as int),
                    row <= j,
                decreases k - j,
            {
                proof {
                    lemma_corner_byte_fields(raw, j);
                    lemma_corner_byte_fields(raw, k);
                }
                if ((raw >> (8 * j)) & 7) > ((raw >> (8 * k)) & 7) {
                    row = row + 1;
                }
                j = j + 1;
            }
            total = total + row;
            k = k + 1;
        }
        total % 2 == 1
    }
}

/// Number of inversions that slot `k` forms with the slots before `j`:
/// how many earlier pieces sit in higher positions.
pub open spec fn cinv_row(raw: u64, k: u64, j: int) -> int
    decreases j,
{
    if j <= 0 {
        0
    } else {
        cinv_row(raw, k, j - 1) + if cpos(raw, (j - 1) as u64) > cpos(raw, k) {
            1int
        } else {
            0
        }
    }
}

/// Number of inversions among the first `n` slots.
pub open spec fn cinv_total(raw: u64, n: int) -> int
    decreases n,
{
    if n <= 0 {
        0
    } else {
        cinv_total(raw, n - 1) + cinv_row(raw, (n - 1) as u64, n - 1)
    }
}

/// The sign of the position permutation: odd iff the inversion count is
/// odd.
pub open spec fn corner_parity(raw: u64) -> bool {
    cinv_total(raw, 8) % 2 == 1
}

/// `3^n`.
pub open spec fn pow3(n: nat) -> int
    decreases n,
{
    if n == 0 {
        1
    } else {
        3 * pow3((n - 1) as nat)
    }
}

/// `n!`.
pub open spec fn factorial(n: nat) -> int
    decreases n,
{
    if n == 0 {
        1
    } else {
        n * factorial((n - 1) as nat)
    }
}

pub(crate) proof fn lemma_pow3_pos(n: nat)
    ensures
        pow3(n) >= 1,
    decreases n,
{
    if n > 0 {
        lemma_pow3_pos((n - 1) as nat)
    }
}

pub(crate) proof fn lemma_factorial_pos(n: nat)
    ensures
        factorial(n) >= 1,
    decreases n,
{
    if n > 0 {
        lemma_factorial_pos((n - 1) as nat);
        assert(factorial(n) == n * factorial((n - 1) as nat));
        assert(n * factorial((n - 1) as nat) >= 1) by (nonlinear_arith)
            requires
                n >= 1,
                factorial((n - 1) as nat) >= 1,
        ;
    }
}

/// The small powers of three, evaluated.
pub(crate) proof fn lemma_pow3_vals()
    ensures
        pow3(0) == 1,
        pow3(1) == 3,
        pow3(2) == 9,
        pow3(3) == 27,
        pow3(4) == 81,
        pow3(5) == 243,
        pow3(6) == 729,
        pow3(7) == 2187,
{
    assert(pow3(0) == 1);
    assert(pow3(1) == 3);
    assert(pow3(2) == 9);
    assert(pow3(3) == 27);
    assert(pow3(4) == 81);
    assert(pow3(5) == 243);
    assert(pow3(6) == 729);
    assert(pow3(7) == 2187);
}

/// The base-3 value of the twist fields of slots `0..k`, slot 0 most
/// significant among the seven free digits.
pub open spec fn co_prefix(raw: u64, k: int) -> int
    decreases k,
{
    if k <= 0 {
        0
    } else {
        co_prefix(raw, k - 1) + cori(raw, (k - 1) as u64) * pow3((7 - k) as nat)
    }
}

/// The orientation coordinate of a corner map: the twists of slots `0..7`
/// read as a base-3 number. Slot 7 carries no digit: its twist is fixed
/// by the residue rule.
pub open spec fn co_index_spec(raw: u64) -> int {
    co_prefix(raw, 7)
}

/// The same base-3 prefix value over a plain digit sequence.
pub open spec fn digits3_prefix(s: Seq<u8>, k: int) -> int
    decreases k,
{
    if k <= 0 {
        0
    } else {
        digits3_prefix(s, k - 1) + s[k - 1] * pow3((7 - k) as nat)
    }
}

pub(crate) proof fn lemma_digits3_prefix_ext(s1: Seq<u8>, s2: Seq<u8>, k: int)
    requires
        k <= 8,
        forall|j: int| 0 <= j < k ==> s1[j] == s2[j],
    ensures
        digits3_prefix(s1, k) == digits3_prefix(s2, k),
    decreases k,
{
    if k > 0 {
        lemma_digits3_prefix_ext(s1, s2, k - 1);
    }
}

pub(crate) proof fn lemma_co_prefix_digits(raw: u64, s: Seq<u8>, k: int)
    requires
        k <= 8,
        forall|j: u64| j < k ==> cori(raw, j) == s[j as int],
    ensures
        co_prefix(raw, k) == digits3_prefix(s, k),
    decreases k,
{
    if k > 0 {
        lemma_co_prefix_digits(raw, s, k - 1);
        assert(cori(raw, (k - 1) as u64) == s[k - 1]);
    }
}

impl CornerMap {
    /// The orientation coordinate of this map: a bijection from the legal
    /// twist patterns onto `0 .. 3^7`.
    pub fn orientation_index(self) -> (r: COIndex)
        requires
            corner_wf(self.raw),
        ensures
            r.0 as int == co_index_spec(self.raw),
            r.0 < 2187,
    {
        let (_pos, ori) = corner_unpack(self.raw);
        let mut idx: u32 = 0;
        let mut w: u32 = 729;
        let mut i: u64 = 0;
        proof {
            lemma_pow3_vals();
        }
        while i < 7
            invariant
                i <= 7,
                corner_wf(self.raw),
                forall|j: u64| j < 8 ==> ori@[j as int] as u64 == cori(self.raw, j),
                forall|j: int| 0 <= j < 8 ==> ori@[j] < 3,
                i < 7 ==> w as int == pow3((6 - i) as nat),
                w <= 729,
                idx as int == co_prefix(self.raw, i as int),
                idx as int + pow3((7 - i) as nat) <= 2187,
            decreases 7 - i,
        {
            proof {
                assert(pow3((7 - i) as nat) == 3 * pow3((6 - i) as nat));
                lemma_pow3_pos((6 - i) as nat);
                assert((ori@[i as int] as int) * (w as int) <= 2 * (w as int)) by (nonlinear_arith)
                    requires
                        ori@[i as int] < 3,
                        w >= 0,
                ;
            }
            idx = idx + (ori[i as usize] as u32) * w;
            if i < 6 {
                proof {
                    assert(pow3((6 - i) as nat) == 3 * pow3((5 - i) as nat));
                }
                w = w / 3;
            }
            i = i + 1;
        }
        COIndex(idx)
    }

    /// Sets the twists of this map to the pattern whose orientation
    /// coordinate is `index`, leaving every position unchanged. The twist
    /// of the last slot is chosen so the twist sum stays divisible by
    /// three, so the result of a valid permutation is again valid.
    #[verifier::rlimit(60)]
    pub fn set_orientation_index(&mut self, index: COIndex)
        requires
            index.0 < 2187,
        ensures
            forall|i: u64| i < 8 ==> cpos(final (self).raw, i) == cpos(old(self).raw, i),
            corner_wf(final (self).raw),
            co_index_spec(final (self).raw) == index.0,
            cori_sum(final (self).raw, 8) % 3 == 0,
            corner_is_perm(old(self).raw) ==> corner_is_perm(final (self).raw),
    {
        let (pos, _old_ori) = corner_unpack(self.raw);
        let mut d: [u8; 8] = [0; 8];
        let mut rem: u32 = index.0;
        let mut w: u32 = 729;
        let mut i: u64 = 0;
        proof {
            lemma_pow3_vals();
        }
        while i < 7
            invariant
                i <= 7,
                rem < pow3((7 - i) as nat),
                i < 7 ==> w as int == pow3((6 - i) as nat),
                w <= 729,
                index.0 == digits3_prefix(d@, i as int) + rem,
                forall|j: int| 0 <= j < 8 ==> d@[j] < 3,
            decreases 7 - i,
        {
            proof {
                assert(pow3((7 - i) as nat) == 3 * pow3((6 - i) as nat));
                lemma_pow3_pos((6 - i) as nat);
                assert(rem < 3 * w);
                assert(rem / w < 3) by (nonlinear_arith)
                    requires
                        rem < 3 * w,
                        w >= 1,
                ;
            }
            let di = (rem / w) as u8;
            let ghost d_old = d@;
            let ghost old_rem = rem;
            rem = rem % w;
            d[i as usize] = di;
            proof {
                lemma_digits3_prefix_ext(d_old, d@, i as int);
                assert(digits3_prefix(d@, i as int) == digits3_prefix(d_old, i as int));
                assert(digits3_prefix(d@, i as int + 1) == digits3_prefix(d@, i as int)
                    + d@[i as int] * pow3((6 - i) as nat));
                assert(d@[i as int] == di);
                assert(di as int == old_rem as int / w as int);
                assert(rem as int == old_rem as int % w as int);
                vstd::arithmetic::div_mod::lemma_fundamental_div_mod(old_rem as int, w as int);
                assert(old_rem as int == w as int * (old_rem as int / w as int) + old_rem as int
                    % w as int);
                assert(di as int * pow3((6 - i) as nat) == di as int * w as int);
                assert(w as int * (old_rem as int / w as int) == di as int * w as int)
                    by (nonlinear_arith)
                    requires
                        di as int == old_rem as int / w as int,
                ;
                assert(digits3_prefix(d@, i as int + 1) + rem == digits3_prefix(d@, i as int)
                    + di as int * w as int + rem);
                assert(di as int * w as int + rem == old_rem);
                assert(digits3_prefix(d@, i as int) == digits3_prefix(d_old, i as int));
                assert(index.0 == digits3_prefix(d_old, i as int) + old_rem);
                assert(index.0 == digits3_prefix(d@, i as int + 1) + rem);
            }
            if i < 6 {
                proof {
                    assert(pow3((6 - i) as nat) == 3 * pow3((5 - i) as nat));
                }
                w = w / 3;
            }
            i = i + 1;
        }
        proof {
            lemma_pow3_vals();
            assert(rem == 0);
        }
        let sum: u32 = d[0] as u32 + d[1] as u32 + d[2] as u32 + d[3] as u32 + d[4] as u32
            + d[5] as u32 + d[6] as u32;
        let last: u8 = ((3 - (sum % 3)) % 3) as u8;
        let ghost d_before = d@;
        d[7] = last;
        proof {
            lemma_digits3_prefix_ext(d_before, d@, 7);
        }
        let raw = corner_pack(&pos, &d);
        proof {
            lemma_co_prefix_digits(raw, d@, 7);
            assert(cori_sum(raw, 8) == cori(raw, 0) + cori(raw, 1) + cori(raw, 2) + cori(raw, 3)
                + cori(raw, 4) + cori(raw, 5) + cori(raw, 6) + cori(raw, 7)) by {
                reveal_with_fuel(cori_sum, 9);
            }
            if corner_is_perm(self.raw) {
                assert forall|i0: u64, j0: u64| i0 < j0 < 8 implies cpos(raw, i0) != cpos(
                    raw,
                    j0,
                ) by {
                    assert(cpos(raw, i0) == cpos(self.raw, i0));
                    assert(cpos(raw, j0) == cpos(self.raw, j0));
                }
            }
        }
        self.raw = raw;
    }
}



/// The small factorials, evaluated.
pub(crate) proof fn lemma_factorial_vals()
    ensures
        factorial(0) == 1,
        factorial(1) == 1,
        factorial(2) == 2,
        factorial(3) == 6,
        factorial(4) == 24,
        factorial(5) == 120,
        factorial(6) == 720,
        factorial(7) == 5040,
        factorial(8) == 40320,
{
    assert(factorial(0) == 1);
    assert(factorial(1) == 1);
    assert(factorial(2) == 2);
    assert(factorial(3) == 6);
    assert(factorial(4) == 24);
    assert(factorial(5) == 120);
    assert(factorial(6) == 720);
    assert(factorial(7) == 5040);
    assert(factorial(8) == 40320);
}

/// How many of the pieces in slots `k+1 .. j` sit in a lower position
/// than the piece in slot `k`.
pub open spec fn lehmer_pre(raw: u64, k: u64, j: int) -> int
    decreases j,
{
    if j <= k + 1 {
        0
    } else {
        lehmer_pre(raw, k, j - 1) + if cpos(raw, (j - 1) as u64) < cpos(raw, k) {
            1int
        } else {
            0
        }
    }
}

/// The Lehmer digit of slot `k`: how many later pieces sit in lower
/// positions.
pub open spec fn lehmer_digit(raw: u64, k: u64) -> int {
    lehmer_pre(raw, k, 8)
}

/// The factorial-number-system value of the Lehmer digits of slots
/// `0..k`.
pub open spec fn cp_prefix(raw: u64, k: int) -> int
    decreases k,
{
    if k <= 0 {
        0
    } else {
        cp_prefix(raw, k - 1) + lehmer_digit(raw, (k - 1) as u64) * factorial((8 - k) as nat)
    }
}

/// The permutation coordinate of a corner map: its Lehmer code read in
/// the factorial number system, a bijection from the permutations onto
/// `0 .. 8!`.
pub open spec fn cp_index_spec(raw: u64) -> int {
    cp_prefix(raw, 8)
}


/// How many of the slots in `(k, j)` hold a position below slot `k`'s,
/// over a plain position sequence. Mirrors `lehmer_pre` on the packed
/// word.
pub open spec fn placed_below(p: Seq<u8>, k: int, j: int) -> int
    decreases j - k,
{
    if j <= k + 1 {
        0
    } else {
        placed_below(p, k, j - 1) + if p[j - 1] < p[k] {
            1int
        } else {
            0
        }
    }
}

/// How many of the first `n` entries of a value list lie below `x`.
pub open spec fn avail_below(av: Seq<u8>, x: u8, n: int) -> int
    decreases n,
{
    if n <= 0 {
        0
    } else {
        avail_below(av, x, n - 1) + if av[n - 1] < x {
            1int
        } else {
            0
        }
    }
}

/// The factorial-number-system value of a digit sequence prefix, digit
/// `k` weighted `(7-k)!`.
pub open spec fn digit_value(ds: Seq<int>, k: int) -> int
    decreases k,
{
    if k <= 0 {
        0
    } else {
        digit_value(ds, k - 1) + ds[k - 1] * factorial((8 - k) as nat)
    }
}

/// `placed_below` reads only the entries below `j`.
pub(crate) proof fn lemma_placed_below_ext(p1: Seq<u8>, p2: Seq<u8>, k: int, j: int)
    requires
        0 <= k,
        j <= 8,
        forall|t: int| 0 <= t < j ==> p1[t] == p2[t],
    ensures
        placed_below(p1, k, j) == placed_below(p2, k, j),
    decreases j - k,
{
    if j > k + 1 {
        lemma_placed_below_ext(p1, p2, k, j - 1);
    }
}

/// `digit_value` reads only the digits below `k`.
pub(crate) proof fn lemma_digit_value_ext(d1: Seq<int>, d2: Seq<int>, k: int)
    requires
        k <= 8,
        forall|t: int| 0 <= t < k ==> d1[t] == d2[t],
    ensures
        digit_value(d1, k) == digit_value(d2, k),
    decreases k,
{
    if k > 0 {
        lemma_digit_value_ext(d1, d2, k - 1);
    }
}

/// `avail_below` over a prefix that the removal does not reach.
pub(crate) proof fn lemma_avail_below_remove_low(av: Seq<u8>, d: int, x: u8, n: int)
    requires
        0 <= d < av.len(),
        0 <= n <= d,
    ensures
        avail_below(av.remove(d), x, n) == avail_below(av, x, n),
    decreases n,
{
    if n > 0 {
        lemma_avail_below_remove_low(av, d, x, n - 1);
    }
}

/// Removing one entry drops exactly its own contribution to the count.
pub(crate) proof fn lemma_avail_below_remove(av: Seq<u8>, d: int, x: u8, n: int)
    requires
        0 <= d < av.len(),
        d <= n <= av.len() - 1,
    ensures
        avail_below(av.remove(d), x, n) == avail_below(av, x, n + 1) - (if av[d] < x {
            1int
        } else {
            0
        }),
    decreases n,
{
    if n == d {
        lemma_avail_below_remove_low(av, d, x, n);
    } else {
        lemma_avail_below_remove(av, d, x, n - 1);
        assert(av.remove(d)[n - 1] == av[n]);
    }
}

/// In a strictly sorted list, the count of entries below entry `d` is
/// `d` itself.
pub(crate) proof fn lemma_avail_below_sorted(av: Seq<u8>, d: int, n: int)
    requires
        0 <= d < av.len(),
        0 <= n <= av.len(),
        forall|a: int, b: int| 0 <= a < b < av.len() ==> av[a] < av[b],
    ensures
        avail_below(av, av[d], n) == (if n <= d {
            n
        } else {
            d
        }),
    decreases n,
{
    if n > 0 {
        lemma_avail_below_sorted(av, d, n - 1);
    }
}

/// On a word whose position fields equal the sequence, the packed and
/// the plain inversion counts agree.
pub(crate) proof fn lemma_lehmer_pre_is_placed(raw: u64, p: Seq<u8>, k: u64, j: int)
    requires
        k < 8,
        j <= 8,
        forall|t: u64| t < 8 ==> cpos(raw, t) == p[t as int],
    ensures
        lehmer_pre(raw, k, j) == placed_below(p, k as int, j),
    decreases j - k,
{
    if j > k + 1 {
        lemma_lehmer_pre_is_placed(raw, p, k, j - 1);
    }
}

/// A word whose Lehmer digits equal the digit sequence has the digit
/// sequence's factorial-number-system value as its coordinate prefix.
pub(crate) proof fn lemma_cp_prefix_digits(raw: u64, ds: Seq<int>, k: int)
    requires
        k <= 8,
        forall|t: u64| t < k ==> lehmer_digit(raw, t) == ds[t as int],
    ensures
        cp_prefix(raw, k) == digit_value(ds, k),
    decreases k,
{
    if k > 0 {
        lemma_cp_prefix_digits(raw, ds, k - 1);
        assert(lehmer_digit(raw, (k - 1) as u64) == ds[k - 1]);
    }
}

impl CornerMap {
    /// The permutation coordinate of this map.
    pub fn permutation_index(self) -> (r: CPIndex)
        ensures
            r.0 as int == cp_index_spec(self.raw),
            r.0 < 40320,
    {
        let (pos, _ori) = corner_unpack(self.raw);
        let mut idx: u32 = 0;
        let mut fw: u32 = 5040;
        let mut k: u64 = 0;
        proof {
            lemma_factorial_vals();
        }
        while k < 7
            invariant
                k <= 7,
                forall|j: u64| j < 8 ==> pos@[j as int] as u64 == cpos(self.raw, j),
                forall|j: int| 0 <= j < 8 ==> pos@[j] < 8,
                k < 7 ==> fw as int == factorial((7 - k) as nat),
                fw <= 5040,
                idx as int == cp_prefix(self.raw, k as int),
                idx as int + factorial((8 - k) as nat) <= 40320,
            decreases 7 - k,
        {
            let mut cnt: u32 = 0;
            let mut j: u64 = k + 1;
            while j < 8
                invariant
                    k < 7,
                    k + 1 <= j <= 8,
                    forall|j0: u64| j0 < 8 ==> pos@[j0 as int] as u64 == cpos(self.raw, j0),
                    forall|j0: int| 0 <= j0 < 8 ==> pos@[j0] < 8,
                    cnt as int == lehmer_pre(self.raw, k, j as int),
                    cnt as int <= j - k - 1,
                decreases 8 - j,
            {
                if pos[j as usize] < pos[k as usize] {
                    cnt = cnt + 1;
                }
                j = j + 1;
            }
            proof {
                lemma_factorial_pos((6 - k) as nat);
                lemma_factorial_pos((7 - k) as nat);
                assert(factorial((8 - k) as nat) == (8 - k) * factorial((7 - k) as nat));
                assert(cnt as int * fw as int <= (7 - k) * (fw as int) && cnt as int
                    * fw as int <= 35280) by (nonlinear_arith)
                    requires
                        cnt as int <= 7 - k as int,
                        0 <= fw as int <= 5040,
                        k < 7,
                ;
                assert((7 - k as int) * (fw as int) + fw as int == (8 - k as int) * (fw as int))
                    by (nonlinear_arith);
                assert(cp_prefix(self.raw, k as int + 1) == cp_prefix(self.raw, k as int)
                    + lehmer_digit(self.raw, k) * factorial((7 - k) as nat));
                assert(lehmer_digit(self.raw, k) == cnt as int);
            }
            idx = idx + cnt * fw;
            if k < 6 {
                proof {
                    assert(factorial((7 - k) as nat) == (7 - k) * factorial((6 - k) as nat));
                    assert(((7 - k) * factorial((6 - k) as nat)) / (7 - k as int) == factorial(
                        (6 - k) as nat,
                    )) by (nonlinear_arith)
                        requires
                            7 - k as int >= 1,
                    ;
                }
                fw = fw / (7 - k as u32);
            }
            k = k + 1;
        }
        proof {
            assert(lehmer_pre(self.raw, 7, 8) == 0);
            assert(cp_prefix(self.raw, 8) == cp_prefix(self.raw, 7) + lehmer_digit(self.raw, 7)
                * factorial(0));
        }
        CPIndex(idx)
    }

    /// Sets the positions of this map to the permutation whose
    /// coordinate is `index`, leaving every twist unchanged; reading the
    /// coordinate back yields `index` again, so the pair is a two-way
    /// bijection over `0 .. 8!`.
    #[verifier::rlimit(100)]
    pub fn set_permutation_index(&mut self, index: CPIndex)
        requires
            index.0 < 40320,
            corner_wf(old(self).raw),
        ensures
            corner_wf(final (self).raw),
            corner_is_perm(final (self).raw),
            forall|i: u64| i < 8 ==> cori(final (self).raw, i) == cori(old(self).raw, i),
            cp_index_spec(final (self).raw) == index.0,
    {
        let (_old_pos, ori) = corner_unpack(self.raw);
        let mut avail: Vec<u8> = Vec::new();
        let mut t: u8 = 0;
        while (t as usize) < 8
            invariant
                avail@.len() == t as int,
                t as int <= 8,
                forall|a: int| 0 <= a < t as int ==> avail@[a] == a,
            decreases 8 - t as int,
        {
            avail.push(t);
            t = t + 1;
        }
        let mut pos: [u8; 8] = [0; 8];
        let mut rem: u32 = index.0;
        let mut fw: u32 = 5040;
        let ghost mut ds: Seq<int> = Seq::empty();
        let mut i: u64 = 0;
        proof {
            lemma_factorial_vals();
        }
        while i < 8
            invariant
                i <= 8,
                avail@.len() == 8 - i as int,
                forall|a: int, b: int| 0 <= a < b < avail@.len() ==> avail@[a] < avail@[b],
                forall|a: int| 0 <= a < avail@.len() ==> avail@[a] < 8,
                forall|j: int| 0 <= j < 8 ==> pos@[j] < 8,
                forall|j1: int, j2: int| 0 <= j1 < j2 < i as int ==> pos@[j1] != pos@[j2],
                forall|j: int, a: int|
                    0 <= j < i as int && 0 <= a < avail@.len() ==> pos@[j] != avail@[a],
                i < 8 ==> fw as int == factorial((7 - i) as nat),
                fw <= 5040,
                (rem as int) < factorial((8 - i) as nat),
                ds.len() == i as int,
                index.0 == digit_value(ds, i as int) + rem,
                forall|k: int|
                    0 <= k < i as int ==> ds[k] == placed_below(pos@, k, i as int) + avail_below(
                        avail@,
                        pos@[k],
                        avail@.len() as int,
                    ),
            decreases 8 - i,
        {
            proof {
                lemma_factorial_vals();
                lemma_factorial_pos((7 - i) as nat);
                assert(factorial((8 - i) as nat) == (8 - i) * factorial((7 - i) as nat));
                assert((rem as int) / (fw as int) < 8 - (i as int)) by (nonlinear_arith)
                    requires
                        (rem as int) < (8 - i as int) * (fw as int),
                        fw as int >= 1,
                ;
            }
            let di = (rem / fw) as usize;
            let ghost old_rem = rem;
            let ghost av0 = avail@;
            let ghost pos0 = pos@;
            let ghost ds0 = ds;
            rem = rem % fw;
            let v = avail.remove(di);
            pos[i as usize] = v;
            proof {
                ds = ds.push(di as int);
                vstd::arithmetic::div_mod::lemma_fundamental_div_mod(old_rem as int, fw as int);
                lemma_digit_value_ext(ds0, ds, i as int);
                assert(digit_value(ds, i as int + 1) == digit_value(ds, i as int) + (di as int)
                    * factorial((7 - i) as nat));
                assert((fw as int) * (old_rem as int / fw as int) == (di as int) * (fw as int))
                    by (nonlinear_arith)
                    requires
                        di as int == old_rem as int / fw as int,
                ;
                assert(index.0 == digit_value(ds, i as int + 1) + rem);
                assert(v == av0[di as int]);
                lemma_avail_below_sorted(av0, di as int, av0.len() as int);
                if di as int <= av0.len() - 1 {
                    lemma_avail_below_remove(av0, di as int, v, av0.len() - 1);
                }
                assert(avail_below(avail@, v, avail@.len() as int) == di as int);
                assert(placed_below(pos@, i as int, i as int + 1) == 0);
                assert forall|k: int|
                    0 <= k < i as int + 1 implies ds[k] == placed_below(pos@, k, i as int + 1)
                    + avail_below(avail@, pos@[k], avail@.len() as int) by {
                    if k < i as int {
                        assert(pos@[k] == pos0[k]);
                        lemma_placed_below_ext(pos0, pos@, k, i as int);
                        assert(placed_below(pos@, k, i as int + 1) == placed_below(
                            pos@,
                            k,
                            i as int,
                        ) + (if pos@[i as int] < pos@[k] {
                            1int
                        } else {
                            0
                        }));
                        lemma_avail_below_remove(av0, di as int, pos0[k] as u8, av0.len() - 1);
                        assert(ds[k] == ds0[k]);
                    }
                }
            }
            if i < 6 {
                proof {
                    assert(factorial((7 - i) as nat) == (7 - i) * factorial((6 - i) as nat));
                    assert(((7 - i) * factorial((6 - i) as nat)) / (7 - i as int) == factorial(
                        (6 - i) as nat,
                    )) by (nonlinear_arith)
                        requires
                            7 - i as int >= 1,
                    ;
                }
                fw = fw / (7 - i as u32);
            }
            i = i + 1;
        }
        proof {
            lemma_factorial_vals();
            assert(rem == 0);
            assert(index.0 == digit_value(ds, 8));
        }
        let raw = corner_pack(&pos, &ori);
        proof {
            assert forall|i0: u64, j0: u64| i0 < j0 < 8 implies cpos(raw, i0) != cpos(raw, j0) by {
                assert(pos@[i0 as int] != pos@[j0 as int]);
            }
            assert forall|k: u64| k < 8 implies #[trigger] lehmer_digit(raw, k) == ds[k as int] by {
                lemma_lehmer_pre_is_placed(raw, pos@, k, 8);
                assert(avail_below(avail@, pos@[k as int], avail@.len() as int) == 0);
            }
            lemma_cp_prefix_digits(raw, ds, 8);
        }
        self.raw = raw;
    }
}

/// The product of two bijective maps is bijective: composition keeps the
/// position fields a permutation.
pub proof fn lemma_cm_mul_perm(a: u64, b: u64)
    requires
        corner_is_perm(a),
        corner_is_perm(b),
    ensures
        corner_is_perm(cm_mul_spec(a, b)),
{
    assert forall|i: u64, j: u64| i < j < 8 implies cpos(cm_mul_spec(a, b), i) != cpos(
        cm_mul_spec(a, b),
        j,
    ) by {
        lemma_cm_mul_fields(a, b, i);
        lemma_cm_mul_fields(a, b, j);
        lemma_corner_byte_fields(a, i);
        lemma_corner_byte_fields(a, j);
        let pi = cpos(a, i);
        let pj = cpos(a, j);
        assert(pi != pj);
        if pi < pj {
            assert(cpos(b, pi) != cpos(b, pj));
        } else {
            assert(cpos(b, pj) != cpos(b, pi));
        }
    }
}

/// The position a sequence of override entries leaves for a slot: the
/// last entry that names the slot wins; an untouched slot keeps its
/// identity position.
pub open spec fn entries_pos(s: Seq<(Corner, (Corner, Twist))>, slot: u64, k: int) -> u64
    decreases k,
{
    if k <= 0 {
        slot
    } else if corner_index_spec(s[k - 1].0) == slot {
        corner_index_spec(s[k - 1].1.0)
    } else {
        entries_pos(s, slot, k - 1)
    }
}

/// The twist a sequence of override entries leaves for a slot.
pub open spec fn entries_ori(s: Seq<(Corner, (Corner, Twist))>, slot: u64, k: int) -> u64
    decreases k,
{
    if k <= 0 {
        0
    } else if corner_index_spec(s[k - 1].0) == slot {
        twist_index_spec(s[k - 1].1.1)
    } else {
        entries_ori(s, slot, k - 1)
    }
}

/// The raw word a sequence of override entries assembles over the
/// identity.
pub open spec fn entries_word(s: Seq<(Corner, (Corner, Twist))>) -> u64 {
    let n = s.len() as int;
    corner_pack8(
        (entries_pos(s, 0, n) + 8 * entries_ori(s, 0, n)) as u64,
        (entries_pos(s, 1, n) + 8 * entries_ori(s, 1, n)) as u64,
        (entries_pos(s, 2, n) + 8 * entries_ori(s, 2, n)) as u64,
        (entries_pos(s, 3, n) + 8 * entries_ori(s, 3, n)) as u64,
        (entries_pos(s, 4, n) + 8 * entries_ori(s, 4, n)) as u64,
        (entries_pos(s, 5, n) + 8 * entries_ori(s, 5, n)) as u64,
        (entries_pos(s, 6, n) + 8 * entries_ori(s, 6, n)) as u64,
        (entries_pos(s, 7, n) + 8 * entries_ori(s, 7, n)) as u64,
    )
}

/// The fields an entry sequence leaves are in range.
pub(crate) proof fn lemma_entries_fields_bounded(s: Seq<(Corner, (Corner, Twist))>, slot: u64, k: int)
    requires
        slot < 8,
    ensures
        entries_pos(s, slot, k) < 8,
        entries_ori(s, slot, k) < 3,
    decreases k,
{
    if k > 0 {
        lemma_entries_fields_bounded(s, slot, k - 1);
    }
}

impl CornerMap {
    /// Builds a map from `(corner, (position, twist))` entries laid over
    /// the identity, later entries overriding earlier ones, then
    /// validates the result: the outcome is exactly that of validating
    /// the assembled word.
    pub fn from_iter(entries: &Vec<(Corner, (Corner, Twist))>) -> (r: Result<CornerMap, MapError>)
        ensures
            r is Ok <==> corner_valid(entries_word(entries@)),
            r is Ok ==> r->Ok_0.raw == entries_word(entries@) && corner_valid(r->Ok_0.raw),
            !corner_is_perm(entries_word(entries@)) ==> r == Err::<CornerMap, MapError>(
                MapError::Duplicate,
            ),
            corner_is_perm(entries_word(entries@)) && cori_sum(entries_word(entries@), 8) % 3 != 0
                ==> r == Err::<CornerMap, MapError>(MapError::Orientation),
    {
        let mut pos: [u8; 8] = [0, 1, 2, 3, 4, 5, 6, 7];
        let mut ori: [u8; 8] = [0; 8];
        let mut k: usize = 0;
        while k < entries.len()
            invariant
                k <= entries@.len(),
                forall|i: int| 0 <= i < 8 ==> pos@[i] < 8 && ori@[i] < 3,
                forall|i: u64|
                    i < 8 ==> pos@[i as int] == entries_pos(entries@, i, k as int)
                        && ori@[i as int] == entries_ori(entries@, i, k as int),
            decreases entries@.len() - k,
        {
            let (c, pt) = entries[k];
            let (p, t) = pt;
            pos[c.index() as usize] = p.index();
            ori[c.index() as usize] = t.index();
            proof {
                assert forall|i: u64| i < 8 implies pos@[i as int] == entries_pos(
                    entries@,
                    i,
                    k as int + 1,
                ) && ori@[i as int] == entries_ori(entries@, i, k as int + 1) by {
                    if corner_index_spec(entries@[k as int].0) != i {
                        assert(entries_pos(entries@, i, k as int + 1) == entries_pos(
                            entries@,
                            i,
                            k as int,
                        ));
                    }
                }
            }
            k = k + 1;
        }
        let raw = corner_pack(&pos, &ori);
        proof {
            let n = entries@.len() as int;
            assert forall|j: u64| j < 8 implies #[trigger] cbyte(raw, j) == cbyte(
                entries_word(entries@),
                j,
            ) by {
                lemma_corner_byte_fields(raw, j);
                lemma_entries_fields_bounded(entries@, 0, n);
                lemma_entries_fields_bounded(entries@, 1, n);
                lemma_entries_fields_bounded(entries@, 2, n);
                lemma_entries_fields_bounded(entries@, 3, n);
                lemma_entries_fields_bounded(entries@, 4, n);
                lemma_entries_fields_bounded(entries@, 5, n);
                lemma_entries_fields_bounded(entries@, 6, n);
                lemma_entries_fields_bounded(entries@, 7, n);
                lemma_corner_pack8_byte(
                    (entries_pos(entries@, 0, n) + 8 * entries_ori(entries@, 0, n)) as u64,
                    (entries_pos(entries@, 1, n) + 8 * entries_ori(entries@, 1, n)) as u64,
                    (entries_pos(entries@, 2, n) + 8 * entries_ori(entries@, 2, n)) as u64,
                    (entries_pos(entries@, 3, n) + 8 * entries_ori(entries@, 3, n)) as u64,
                    (entries_pos(entries@, 4, n) + 8 * entries_ori(entries@, 4, n)) as u64,
                    (entries_pos(entries@, 5, n) + 8 * entries_ori(entries@, 5, n)) as u64,
                    (entries_pos(entries@, 6, n) + 8 * entries_ori(entries@, 6, n)) as u64,
                    (entries_pos(entries@, 7, n) + 8 * entries_ori(entries@, 7, n)) as u64,
                    j,
                );
            }
            lemma_corner_eq_bytes(raw, entries_word(entries@));
        }
        match CornerMap::from_raw(raw) {
            Ok(cm) => Ok(cm),
            Err(e) => Err(e),
        }
    }
}

} // verus!
