//! Center permutation maps: which of the three axis pairs of center
//! pieces points which way. The 24 legal values form the rotation group
//! of the cube.
//!
//! Axis `j` (faces `2j` and `2j+1`) stores, in bits `8*j+5 .. 8*j+8`, the
//! face that face `2j` currently shows. The mate face `2j+1` always shows
//! the opposite face, so three 3-bit fields describe the whole map.
use crate::MapError;
use vstd::prelude::*;

verus! {

/// The stored face of axis `j`: where face `2*j` currently points.
pub open spec fn cg(raw: u64, j: u64) -> u64 {
    (raw >> ((8 * j + 5) as u64)) & 7
}

/// Packs three axis fields into one word.
pub open spec fn center_pack3(g0: u64, g1: u64, g2: u64) -> u64 {
    (g0 << 5u64) | (g1 << 13u64) | (g2 << 21u64)
}

/// The face opposite to `f`.
pub open spec fn face_mate(f: u64) -> u64 {
    if f % 2 == 0 {
        (f + 1) as u64
    } else {
        (f - 1) as u64
    }
}

/// Only the three axis fields are set and each names a face.
pub open spec fn center_wf(raw: u64) -> bool {
    &&& raw == center_pack3(cg(raw, 0), cg(raw, 1), cg(raw, 2))
    &&& cg(raw, 0) < 6
    &&& cg(raw, 1) < 6
    &&& cg(raw, 2) < 6
}

/// The three axes land on three distinct axes.
pub open spec fn center_is_perm(raw: u64) -> bool {
    cg(raw, 0) / 2 != cg(raw, 1) / 2 && cg(raw, 0) / 2 != cg(raw, 2) / 2 && cg(raw, 1) / 2 != cg(
        raw,
        2,
    ) / 2
}

/// Where the map sends face `f`.
pub open spec fn center_get_spec(raw: u64, f: u64) -> u64
    recommends
        f < 6,
{
    if f % 2 == 0 {
        cg(raw, f / 2)
    } else {
        face_mate(cg(raw, f / 2))
    }
}

/// The identity center map: every axis in its home direction.
pub open spec fn center_identity() -> u64 {
    center_pack3(0, 2, 4)
}

/// The group product of two center maps: where `b` sends whatever `a`
/// shows on each axis.
pub open spec fn center_mul_spec(a: u64, b: u64) -> u64 {
    center_pack3(
        center_get_spec(b, cg(a, 0)),
        center_get_spec(b, cg(a, 1)),
        center_get_spec(b, cg(a, 2)),
    )
}

/// `inv` undoes `a` on every face.
pub open spec fn center_inv_rel(inv: u64, a: u64) -> bool {
    &&& center_wf(inv)
    &&& forall|f: u64|
        f < 6 ==> #[trigger] center_get_spec(inv, center_get_spec(a, f)) == f
}

/// `m` behaves as `a.inverse() * b` on every face.
pub open spec fn center_invmul_rel(m: u64, a: u64, b: u64) -> bool {
    &&& center_wf(m)
    &&& forall|f: u64|
        f < 6 ==> #[trigger] center_get_spec(m, center_get_spec(a, f)) == center_get_spec(b, f)
}

/// Reading an axis field back out of `center_pack3`.
pub(crate) proof fn lemma_center_pack3(g0: u64, g1: u64, g2: u64)
    by (bit_vector)
    requires
        g0 < 8,
        g1 < 8,
        g2 < 8,
    ensures
        cg(center_pack3(g0, g1, g2), 0) == g0,
        cg(center_pack3(g0, g1, g2), 1) == g1,
        cg(center_pack3(g0, g1, g2), 2) == g2,
        center_pack3(
            cg(center_pack3(g0, g1, g2), 0),
            cg(center_pack3(g0, g1, g2), 1),
            cg(center_pack3(g0, g1, g2), 2),
        ) == center_pack3(g0, g1, g2),
{
}

/// The axis fields of a well-formed word determine it.
pub(crate) proof fn lemma_center_eq_fields(a: u64, b: u64)
    requires
        center_wf(a),
        center_wf(b),
        cg(a, 0) == cg(b, 0),
        cg(a, 1) == cg(b, 1),
        cg(a, 2) == cg(b, 2),
    ensures
        a == b,
{
}

/// Packs three axis faces into a raw center word.
pub(crate) fn center_pack(g: &[u8; 3]) -> (r: u64)
    requires
        forall|j: int| 0 <= j < 3 ==> g[j] < 6,
    ensures
        cg(r, 0) == g[0],
        cg(r, 1) == g[1],
        cg(r, 2) == g[2],
        center_wf(r),
{
    let r = ((g[0] as u64) << 5u64) | ((g[1] as u64) << 13u64) | ((g[2] as u64) << 21u64);
    proof {
        lemma_center_pack3(g@[0] as u64, g@[1] as u64, g@[2] as u64);
    }
    r
}

/// Reads the three axis faces out of a raw center word.
pub(crate) fn center_unpack(raw: u64) -> (r: [u8; 3])
    ensures
        forall|j: u64| j < 3 ==> r[j as int] == cg(raw, j),
        forall|j: int| 0 <= j < 3 ==> r[j] < 8,
{
    let g0: u8 = ((raw >> 5u64) & 7) as u8;
    let g1: u8 = ((raw >> 13u64) & 7) as u8;
    let g2: u8 = ((raw >> 21u64) & 7) as u8;
    proof {
        lemma_center_field_bound(raw);
    }
    [g0, g1, g2]
}

pub(crate) proof fn lemma_center_field_bound(raw: u64)
    by (bit_vector)
    ensures
        cg(raw, 0) < 8,
        cg(raw, 1) < 8,
        cg(raw, 2) < 8,
        cg(raw, 0) == (raw >> 5u64) & 7,
        cg(raw, 1) == (raw >> 13u64) & 7,
        cg(raw, 2) == (raw >> 21u64) & 7,
{
}

/// Following a flip through a second map flips the result.
pub(crate) proof fn lemma_center_get_mate(b: u64, x: u64)
    requires
        center_wf(b),
        x < 6,
    ensures
        center_get_spec(b, face_mate(x)) == face_mate(center_get_spec(b, x)),
        center_get_spec(b, x) < 6,
        face_mate(x) < 6,
{
}

/// Looking a face up in a product is looking it up in both factors.
pub(crate) proof fn lemma_center_get_mul(a: u64, b: u64, f: u64)
    requires
        center_wf(a),
        center_wf(b),
        f < 6,
    ensures
        center_get_spec(center_mul_spec(a, b), f) == center_get_spec(b, center_get_spec(a, f)),
        center_wf(center_mul_spec(a, b)),
{
    lemma_center_mul_wf(a, b);
    let j = f / 2;
    assert(cg(center_mul_spec(a, b), j) == center_get_spec(b, cg(a, j)));
    if f % 2 != 0 {
        lemma_center_get_mate(b, cg(a, j));
    }
}

/// The product of well-formed center maps is well-formed.
pub(crate) proof fn lemma_center_mul_wf(a: u64, b: u64)
    requires
        center_wf(a),
        center_wf(b),
    ensures
        center_wf(center_mul_spec(a, b)),
        cg(center_mul_spec(a, b), 0) == center_get_spec(b, cg(a, 0)),
        cg(center_mul_spec(a, b), 1) == center_get_spec(b, cg(a, 1)),
        cg(center_mul_spec(a, b), 2) == center_get_spec(b, cg(a, 2)),
{
    lemma_center_get_mate(b, cg(a, 0));
    lemma_center_get_mate(b, cg(a, 1));
    lemma_center_get_mate(b, cg(a, 2));
    lemma_center_pack3(
        center_get_spec(b, cg(a, 0)),
        center_get_spec(b, cg(a, 1)),
        center_get_spec(b, cg(a, 2)),
    );
}

/// The identity word's fields.
pub(crate) proof fn lemma_center_identity_fields()
    ensures
        center_wf(center_identity()),
        cg(center_identity(), 0) == 0,
        cg(center_identity(), 1) == 2,
        cg(center_identity(), 2) == 4,
        forall|f: u64| f < 6 ==> #[trigger] center_get_spec(center_identity(), f) == f,
{
    lemma_center_pack3(0, 2, 4);
    assert forall|f: u64| f < 6 implies #[trigger] center_get_spec(center_identity(), f) == f by {
        assert(cg(center_identity(), f / 2) == 2 * (f / 2));
    }
}

/// Center multiplication is associative.
///
/// Law: for all well-formed center maps `a`, `b`, `c`:
/// `(a * b) * c == a * (b * c)`.
pub proof fn lemma_center_mul_assoc(a: u64, b: u64, c: u64)
    requires
        center_wf(a),
        center_wf(b),
        center_wf(c),
    ensures
        center_mul_spec(center_mul_spec(a, b), c) == center_mul_spec(a, center_mul_spec(b, c)),
{
    lemma_center_mul_wf(a, b);
    lemma_center_mul_wf(b, c);
    let ab = center_mul_spec(a, b);
    let bc = center_mul_spec(b, c);
    lemma_center_mul_wf(ab, c);
    lemma_center_mul_wf(a, bc);
    assert forall|j: u64| j < 3 implies #[trigger] cg(center_mul_spec(ab, c), j) == cg(
        center_mul_spec(a, bc),
        j,
    ) by {
        lemma_center_get_mul(b, c, cg(a, j));
        if j == 0 {
            lemma_center_get_mate(b, cg(a, 0));
            lemma_center_get_mate(c, center_get_spec(b, cg(a, 0)));
        } else if j == 1 {
            lemma_center_get_mate(b, cg(a, 1));
            lemma_center_get_mate(c, center_get_spec(b, cg(a, 1)));
        } else {
            lemma_center_get_mate(b, cg(a, 2));
            lemma_center_get_mate(c, center_get_spec(b, cg(a, 2)));
        }
    }
    lemma_center_eq_fields(center_mul_spec(ab, c), center_mul_spec(a, bc));
}

/// The identity is a right and a left unit for center multiplication.
///
/// Law: for every well-formed center map `a`:
/// `a * identity == a` and `identity * a == a`.
pub proof fn lemma_center_mul_identity(a: u64)
    requires
        center_wf(a),
    ensures
        center_mul_spec(a, center_identity()) == a,
        center_mul_spec(center_identity(), a) == a,
{
    lemma_center_identity_fields();
    lemma_center_mul_wf(a, center_identity());
    lemma_center_mul_wf(center_identity(), a);
    lemma_center_eq_fields(center_mul_spec(a, center_identity()), a);
    lemma_center_eq_fields(center_mul_spec(center_identity(), a), a);
}

/// Multiplying a map by its inverse gives the identity.
///
/// Law: for every valid center map `a`: `a * a.inverse() == identity`.
pub proof fn lemma_center_mul_inverse(a: u64, inv: u64)
    requires
        center_wf(a),
        center_inv_rel(inv, a),
    ensures
        center_mul_spec(a, inv) == center_identity(),
{
    lemma_center_identity_fields();
    lemma_center_mul_wf(a, inv);
    assert forall|j: u64| j < 3 implies #[trigger] cg(center_mul_spec(a, inv), j) == cg(
        center_identity(),
        j,
    ) by {
        assert(center_get_spec(inv, center_get_spec(a, (2 * j) as u64)) == 2 * j);
        assert(center_get_spec(a, (2 * j) as u64) == cg(a, j));
    }
    lemma_center_eq_fields(center_mul_spec(a, inv), center_identity());
}

/// The fused inverse-multiply agrees with inverting and then multiplying.
///
/// Law: for all center maps `a`, `b`:
/// `a.inverse_multiply(b) == a.inverse() * b`.
pub proof fn lemma_center_inverse_multiply(a: u64, inv: u64, b: u64, m: u64)
    requires
        center_wf(a),
        center_wf(b),
        center_inv_rel(inv, a),
        center_invmul_rel(m, a, b),
    ensures
        m == center_mul_spec(inv, b),
{
    lemma_center_mul_wf(inv, b);
    assert forall|j: u64| j < 3 implies #[trigger] cg(m, j) == cg(center_mul_spec(inv, b), j) by {
        let x = cg(inv, j);
        assert(center_get_spec(inv, (2 * j) as u64) == cg(inv, j));
        assert(cg(center_mul_spec(inv, b), j) == center_get_spec(b, cg(inv, j)));
        lemma_center_inv_onto(a, inv, (2 * j) as u64);
        let f = choose|f: u64| f < 6 && #[trigger] center_get_spec(a, f) == 2 * j;
        assert(center_get_spec(inv, center_get_spec(a, f)) == f);
        assert(center_get_spec(m, center_get_spec(a, f)) == center_get_spec(b, f));
        assert(center_get_spec(m, (2 * j) as u64) == center_get_spec(b, cg(inv, ((2 * j) as u64) / 2)));
    }
    lemma_center_eq_fields(m, center_mul_spec(inv, b));
}

/// Six pairwise distinct values below six cannot all avoid `k`.
proof fn lemma_pigeonhole6(v0: u64, v1: u64, v2: u64, v3: u64, v4: u64, v5: u64, k: u64)
    by (bit_vector)
    requires
        v0 < 6 && v1 < 6 && v2 < 6 && v3 < 6 && v4 < 6 && v5 < 6,
        v0 != v1 && v0 != v2 && v0 != v3 && v0 != v4 && v0 != v5,
        v1 != v2 && v1 != v3 && v1 != v4 && v1 != v5,
        v2 != v3 && v2 != v4 && v2 != v5,
        v3 != v4 && v3 != v5,
        v4 != v5,
        k < 6,
    ensures
        v0 == k || v1 == k || v2 == k || v3 == k || v4 == k || v5 == k,
{
}

/// A map with an inverse reaches every face.
pub(crate) proof fn lemma_center_inv_onto(a: u64, inv: u64, y: u64)
    requires
        center_wf(a),
        center_inv_rel(inv, a),
        y < 6,
    ensures
        exists|f: u64| f < 6 && #[trigger] center_get_spec(a, f) == y,
{
    lemma_center_get_mate(a, 0);
    lemma_center_get_mate(a, 2);
    lemma_center_get_mate(a, 4);
    lemma_center_get_mate(a, 1);
    lemma_center_get_mate(a, 3);
    lemma_center_get_mate(a, 5);
    assert forall|f1: u64, f2: u64|
        f1 < 6 && f2 < 6 && f1 != f2 implies center_get_spec(a, f1) != center_get_spec(
        a,
        f2,
    ) by {
        assert(center_get_spec(inv, center_get_spec(a, f1)) == f1);
        assert(center_get_spec(inv, center_get_spec(a, f2)) == f2);
    }
    lemma_pigeonhole6(
        center_get_spec(a, 0),
        center_get_spec(a, 1),
        center_get_spec(a, 2),
        center_get_spec(a, 3),
        center_get_spec(a, 4),
        center_get_spec(a, 5),
        y,
    );
}

/// A well-formed bijective center map sends distinct faces to distinct
/// faces.
pub proof fn lemma_center_get_injective(raw: u64, f1: u64, f2: u64)
    requires
        center_wf(raw),
        center_is_perm(raw),
        f1 < 6,
        f2 < 6,
        f1 != f2,
    ensures
        center_get_spec(raw, f1) != center_get_spec(raw, f2),
{
    if f1 / 2 == f2 / 2 {
        lemma_center_get_mate(raw, f1);
    } else {
        assert(cg(raw, f1 / 2) / 2 != cg(raw, f2 / 2) / 2);
    }
}

/// Center piece mapping for the 3x3 cube: which face each axis of
/// centers shows, packed into one `u64`.
#[derive(Clone, Copy, Debug, PartialEq, Eq, Structural, Hash)]
pub struct CenterMap {
    pub raw: u64,
}

impl Default for CenterMap {
    /// The identity map: every center at home.
    fn default() -> (r: CenterMap)
        ensures
            r.raw == center_identity(),
            center_wf(center_identity()),
    {
        let g: [u8; 3] = [0, 2, 4];
        let raw = center_pack(&g);
        proof {
            lemma_center_identity_fields();
            lemma_center_eq_fields(raw, center_identity());
        }
        CenterMap { raw }
    }
}

impl CenterMap {
    /// Where the map sends the given face.
    pub fn get(self, face: Face) -> (r: Face)
        requires
            center_wf(self.raw),
        ensures
            crate::face_index_spec(r) as u64 == center_get_spec(
                self.raw,
                crate::face_index_spec(face) as u64,
            ),
    {
        let f = face.index() as u64;
        let g = center_unpack(self.raw);
        let v = g[(f / 2) as usize];
        if f % 2 == 0 {
            Face::from_index(v)
        } else {
            if v % 2 == 0 {
                Face::from_index(v + 1)
            } else {
                Face::from_index(v - 1)
            }
        }
    }

    /// The mapping as `(home face, current face)` pairs for the three
    /// even faces.
    pub fn iter(self) -> (r: Vec<(Face, Face)>)
        requires
            center_wf(self.raw),
        ensures
            r@.len() == 3,
            forall|j: int|
                0 <= j < 3 ==> crate::face_index_spec(r@[j].0) == 2 * j && crate::face_index_spec(
                    r@[j].1,
                ) as u64 == cg(self.raw, j as u64),
    {
        let g = center_unpack(self.raw);
        let mut v: Vec<(Face, Face)> = Vec::new();
        let f0 = Face::from_index(0);
        let f2 = Face::from_index(2);
        let f4 = Face::from_index(4);
        v.push((f0, Face::from_index(g[0])));
        v.push((f2, Face::from_index(g[1])));
        v.push((f4, Face::from_index(g[2])));
        v
    }

    /// The group product `self * rhs`: apply `self` first, then `rhs`.
    pub fn multiply(self, rhs: CenterMap) -> (r: CenterMap)
        requires
            center_wf(self.raw),
            center_wf(rhs.raw),
        ensures
            r.raw == center_mul_spec(self.raw, rhs.raw),
            center_wf(r.raw),
    {
        let ga = center_unpack(self.raw);
        let gb = center_unpack(rhs.raw);
        let mut rg: [u8; 3] = [0; 3];
        let mut j: usize = 0;
        while j < 3
            invariant
                j <= 3,
                center_wf(self.raw),
                center_wf(rhs.raw),
                forall|t: u64| t < 3 ==> ga@[t as int] as u64 == cg(self.raw, t),
                forall|t: u64| t < 3 ==> gb@[t as int] as u64 == cg(rhs.raw, t),
                forall|t: int| 0 <= t < 3 ==> ga@[t] < 6 && gb@[t] < 6,
                forall|t: int| 0 <= t < 3 ==> rg@[t] < 6,
                forall|t: u64|
                    t < j ==> rg@[t as int] as u64 == center_get_spec(rhs.raw, cg(self.raw, t)),
            decreases 3 - j,
        {
            let x = ga[j];
            let v = gb[(x / 2) as usize];
            let w = if x % 2 == 0 {
                v
            } else {
                if v % 2 == 0 {
                    v + 1
                } else {
                    v - 1
                }
            };
            rg[j] = w;
            j = j + 1;
        }
        let raw = center_pack(&rg);
        proof {
            lemma_center_mul_wf(self.raw, rhs.raw);
            lemma_center_eq_fields(raw, center_mul_spec(self.raw, rhs.raw));
        }
        CenterMap { raw }
    }

    /// The group inverse: the map that returns every axis home.
    pub fn inverse(self) -> (r: CenterMap)
        requires
            center_wf(self.raw),
            center_is_perm(self.raw),
        ensures
            center_inv_rel(r.raw, self.raw),
            center_is_perm(r.raw),
    {
        let ga = center_unpack(self.raw);
        let mut rg: [u8; 3] = [0; 3];
        let mut j: usize = 0;
        while j < 3
            invariant
                j <= 3,
                center_wf(self.raw),
                center_is_perm(self.raw),
                forall|t: u64| t < 3 ==> ga@[t as int] as u64 == cg(self.raw, t),
                forall|t: int| 0 <= t < 3 ==> ga@[t] < 6,
                forall|t: int| 0 <= t < 3 ==> rg@[t] < 6,
                forall|t: u64|
                    t < j ==> rg@[(cg(self.raw, t) / 2) as int] as u64 == 2 * t + cg(self.raw, t)
                        % 2,
            decreases 3 - j,
        {
            let x = ga[j];
            rg[(x / 2) as usize] = (2 * j as u8) + (x % 2);
            proof {
                assert forall|t: u64| #![trigger cg(self.raw, t)] t < j implies cg(
                    self.raw,
                    t,
                ) / 2 != cg(self.raw, j as u64) / 2 by {
                    assert(center_is_perm(self.raw));
                }
            }
            j = j + 1;
        }
        let raw = center_pack(&rg);
        proof {
            assert forall|f: u64| f < 6 implies #[trigger] center_get_spec(
                raw,
                center_get_spec(self.raw, f),
            ) == f by {
                let t = f / 2;
                let x = cg(self.raw, t);
                assert(rg@[(x / 2) as int] as u64 == 2 * t + x % 2);
                assert(cg(raw, x / 2) == 2 * t + x % 2);
            }
            let a0 = cg(self.raw, 0) / 2;
            let a1 = cg(self.raw, 1) / 2;
            let a2 = cg(self.raw, 2) / 2;
            assert(cg(raw, a0) == 2 * 0 + cg(self.raw, 0) % 2);
            assert(cg(raw, a1) == 2 * 1 + cg(self.raw, 1) % 2);
            assert(cg(raw, a2) == 2 * 2 + cg(self.raw, 2) % 2);
            assert(center_is_perm(raw));
        }
        CenterMap { raw }
    }

    /// `self.inverse() * rhs`, fused into one pass.
    #[verifier::rlimit(60)]
    pub fn inverse_multiply(self, rhs: CenterMap) -> (r: CenterMap)
        requires
            center_wf(self.raw),
            center_is_perm(self.raw),
            center_wf(rhs.raw),
        ensures
            center_invmul_rel(r.raw, self.raw, rhs.raw),
    {
        let ga = center_unpack(self.raw);
        let gb = center_unpack(rhs.raw);
        let mut rg: [u8; 3] = [0; 3];
        let mut j: usize = 0;
        while j < 3
            invariant
                j <= 3,
                center_wf(self.raw),
                center_is_perm(self.raw),
                center_wf(rhs.raw),
                forall|t: u64| t < 3 ==> ga@[t as int] as u64 == cg(self.raw, t),
                forall|t: u64| t < 3 ==> gb@[t as int] as u64 == cg(rhs.raw, t),
                forall|t: int| 0 <= t < 3 ==> ga@[t] < 6 && gb@[t] < 6,
                forall|t: int| 0 <= t < 3 ==> rg@[t] < 6,
                forall|t: u64|
                    t < j ==> rg@[(cg(self.raw, t) / 2) as int] as u64 == (if cg(self.raw, t) % 2
                        == 0 {
                        cg(rhs.raw, t)
                    } else {
                        face_mate(cg(rhs.raw, t))
                    }),
            decreases 3 - j,
        {
            let x = ga[j];
            let v = gb[j];
            let w = if x % 2 == 0 {
                v
            } else {
                if v % 2 == 0 {
                    v + 1
                } else {
                    v - 1
                }
            };
            rg[(x / 2) as usize] = w;
            proof {
                assert forall|t: u64| #![trigger cg(self.raw, t)] t < j implies cg(
                    self.raw,
                    t,
                ) / 2 != cg(self.raw, j as u64) / 2 by {
                    assert(center_is_perm(self.raw));
                }
            }
            j = j + 1;
        }
        let raw = center_pack(&rg);
        proof {
            assert forall|f: u64| f < 6 implies #[trigger] center_get_spec(
                raw,
                center_get_spec(self.raw, f),
            ) == center_get_spec(rhs.raw, f) by {
                let t = f / 2;
                let x = cg(self.raw, t);
                assert(cg(raw, x / 2) as u64 == (if x % 2 == 0 {
                    cg(rhs.raw, t)
                } else {
                    face_mate(cg(rhs.raw, t))
                }));
            }
        }
        CenterMap { raw }
    }

    /// The raw packed word.
    pub fn raw(self) -> (r: u64)
        ensures
            r == self.raw,
    {
        self.raw
    }

    /// Wraps a raw word without validating it. For values of internal
    /// origin, which the closed algebra keeps valid.
    pub fn from_raw_unchecked(raw: u64) -> (r: CenterMap)
        ensures
            r.raw == raw,
    {
        CenterMap { raw }
    }
}

use crate::Face;

} // verus!
