//! The cube state types: corner, edge and center maps and their packaging
//! into whole-cube values.
use vstd::prelude::*;

pub mod center;
pub mod corner;
pub mod edge;

pub use self::center::CenterMap;
pub use self::corner::CornerMap;
pub use self::edge::Edge;
pub use self::edge::EdgeMap;

use crate::MapError;
use center::{cg, center_identity, center_inv_rel, center_invmul_rel, center_is_perm,
    center_mul_spec, center_pack3, center_wf, lemma_center_mul_wf, lemma_center_pack3};
use corner::{cbyte, cm_identity, cm_mul_spec, corner_inv_rel, corner_invmul_rel, corner_is_perm,
    corner_valid, corner_wf, cori_sum, lemma_cm_mul_wf, lemma_corner_byte_fields};
use edge::{edge_inv_rel, edge_invmul_rel, edge_is_perm, edge_valid, edge_wf, em_identity,
    em_mul_spec, eori_sum, lemma_em_mul_wf};

verus! {

/// The corner part of a packed corner-and-center word.
pub open spec fn cc_corners_spec(raw: u64) -> u64 {
    raw & 0x1f1f1f1f1f1f1f1f
}

/// The center part of a packed corner-and-center word.
pub open spec fn cc_centers_spec(raw: u64) -> u64 {
    raw & 0xe0e0e0
}

/// A corner word keeps only its low five bits per byte; a center word
/// keeps only its three axis fields; so merged by `|` they split apart
/// again.
pub(crate) proof fn lemma_cc_split(cr: u64, ce: u64)
    by (bit_vector)
    requires
        cbyte(cr, 0) < 32 && cbyte(cr, 1) < 32 && cbyte(cr, 2) < 32 && cbyte(cr, 3) < 32 && cbyte(
            cr,
            4,
        ) < 32 && cbyte(cr, 5) < 32 && cbyte(cr, 6) < 32 && cbyte(cr, 7) < 32,
        ce == ((cg(ce, 0) << 5u64) | (cg(ce, 1) << 13u64) | (cg(ce, 2) << 21u64)),
    ensures
        (cr | ce) & 0x1f1f1f1f1f1f1f1f == cr,
        (cr | ce) & 0xe0e0e0 == ce,
{
}

/// Instantiates the split lemma from the well-formedness predicates.
pub(crate) proof fn lemma_cc_split_wf(cr: u64, ce: u64)
    requires
        corner_wf(cr),
        center_wf(ce),
    ensures
        cc_corners_spec(cr | ce) == cr,
        cc_centers_spec(cr | ce) == ce,
{
    lemma_corner_byte_fields(cr, 0);
    lemma_corner_byte_fields(cr, 1);
    lemma_corner_byte_fields(cr, 2);
    lemma_corner_byte_fields(cr, 3);
    lemma_corner_byte_fields(cr, 4);
    lemma_corner_byte_fields(cr, 5);
    lemma_corner_byte_fields(cr, 6);
    lemma_corner_byte_fields(cr, 7);
    assert(ce == center_pack3(cg(ce, 0), cg(ce, 1), cg(ce, 2)));
    lemma_cc_split(cr, ce);
}

/// Stores both the centers and the corners in a single `u64`: the corner
/// fields use the five low bits of each byte, the three center fields the
/// high bits of the three low bytes.
#[derive(Clone, Copy, Debug, PartialEq, Eq, Structural, Hash)]
pub struct CenteredCornerMap {
    pub raw: u64,
}

impl CenteredCornerMap {
    /// Merges a center and a corner map into one word.
    pub fn new(centers: CenterMap, corners: CornerMap) -> (r: CenteredCornerMap)
        requires
            corner_wf(corners.raw),
            center_wf(centers.raw),
        ensures
            r.raw == (corners.raw | centers.raw),
            cc_corners_spec(r.raw) == corners.raw,
            cc_centers_spec(r.raw) == centers.raw,
    {
        proof {
            lemma_cc_split_wf(corners.raw, centers.raw);
        }
        CenteredCornerMap { raw: corners.raw | centers.raw }
    }

    /// The corner part.
    pub fn corners(self) -> (r: CornerMap)
        ensures
            r.raw == cc_corners_spec(self.raw),
    {
        CornerMap { raw: self.raw & 0x1f1f1f1f1f1f1f1f }
    }

    /// The center part.
    pub fn centers(self) -> (r: CenterMap)
        ensures
            r.raw == cc_centers_spec(self.raw),
    {
        CenterMap { raw: self.raw & 0xe0e0e0 }
    }
}

/// The corner and center parts of the merged word are well-formed and the
/// word carries nothing else.
pub open spec fn cc_wf(raw: u64) -> bool {
    &&& corner_wf(cc_corners_spec(raw))
    &&& center_wf(cc_centers_spec(raw))
    &&& raw == (cc_corners_spec(raw) | cc_centers_spec(raw))
}

/// The 3x3 puzzle cube: corners, centers and edges together.
#[derive(Clone, Copy, Debug, PartialEq, Eq, Structural, Hash)]
pub struct Cube {
    pub centered_corners: CenteredCornerMap,
    pub edges: EdgeMap,
}

/// All three components are well-formed.
pub open spec fn cube_wf(c: Cube) -> bool {
    cc_wf(c.centered_corners.raw) && edge_wf(c.edges.set)
}

/// All three components pass validation.
pub open spec fn cube_valid(c: Cube) -> bool {
    &&& cube_wf(c)
    &&& corner_valid(cc_corners_spec(c.centered_corners.raw))
    &&& center_is_perm(cc_centers_spec(c.centered_corners.raw))
    &&& edge_valid(c.edges.set)
}

/// The group product of two cubes, componentwise.
pub open spec fn cube_mul_spec(a: Cube, b: Cube) -> Cube {
    Cube {
        centered_corners: CenteredCornerMap {
            raw: cm_mul_spec(
                cc_corners_spec(a.centered_corners.raw),
                cc_corners_spec(b.centered_corners.raw),
            ) | center_mul_spec(
                cc_centers_spec(a.centered_corners.raw),
                cc_centers_spec(b.centered_corners.raw),
            ),
        },
        edges: EdgeMap { set: em_mul_spec(a.edges.set, b.edges.set) },
    }
}

/// The identity cube: the solved state in home orientation.
pub open spec fn cube_identity() -> Cube {
    Cube {
        centered_corners: CenteredCornerMap { raw: (cm_identity() | center_identity()) },
        edges: EdgeMap { set: em_identity() },
    }
}

/// `inv` undoes `a`, componentwise.
pub open spec fn cube_inv_rel(inv: Cube, a: Cube) -> bool {
    &&& corner_inv_rel(
        cc_corners_spec(inv.centered_corners.raw),
        cc_corners_spec(a.centered_corners.raw),
    )
    &&& center_inv_rel(
        cc_centers_spec(inv.centered_corners.raw),
        cc_centers_spec(a.centered_corners.raw),
    )
    &&& edge_inv_rel(inv.edges.set, a.edges.set)
    &&& cube_wf(inv)
}

/// `m` is the fused inverse-then-multiply of `a` and `b`, componentwise.
pub open spec fn cube_invmul_rel(m: Cube, a: Cube, b: Cube) -> bool {
    &&& corner_invmul_rel(
        cc_corners_spec(m.centered_corners.raw),
        cc_corners_spec(a.centered_corners.raw),
        cc_corners_spec(b.centered_corners.raw),
    )
    &&& center_invmul_rel(
        cc_centers_spec(m.centered_corners.raw),
        cc_centers_spec(a.centered_corners.raw),
        cc_centers_spec(b.centered_corners.raw),
    )
    &&& edge_invmul_rel(m.edges.set, a.edges.set, b.edges.set)
    &&& cube_wf(m)
}

/// The product of well-formed cubes is well-formed and splits back into
/// its component products.
pub(crate) proof fn lemma_cube_mul_wf(a: Cube, b: Cube)
    requires
        cube_wf(a),
        cube_wf(b),
    ensures
        cube_wf(cube_mul_spec(a, b)),
        cc_corners_spec(cube_mul_spec(a, b).centered_corners.raw) == cm_mul_spec(
            cc_corners_spec(a.centered_corners.raw),
            cc_corners_spec(b.centered_corners.raw),
        ),
        cc_centers_spec(cube_mul_spec(a, b).centered_corners.raw) == center_mul_spec(
            cc_centers_spec(a.centered_corners.raw),
            cc_centers_spec(b.centered_corners.raw),
        ),
{
    let cr = cm_mul_spec(
        cc_corners_spec(a.centered_corners.raw),
        cc_corners_spec(b.centered_corners.raw),
    );
    let ce = center_mul_spec(
        cc_centers_spec(a.centered_corners.raw),
        cc_centers_spec(b.centered_corners.raw),
    );
    lemma_cm_mul_wf(cc_corners_spec(a.centered_corners.raw), cc_corners_spec(b.centered_corners.raw));
    lemma_center_mul_wf(
        cc_centers_spec(a.centered_corners.raw),
        cc_centers_spec(b.centered_corners.raw),
    );
    lemma_cc_split_wf(cr, ce);
    lemma_em_mul_wf(a.edges.set, b.edges.set);
}

impl Default for Cube {
    /// The solved cube in home orientation.
    fn default() -> (r: Cube)
        ensures
            r == cube_identity(),
            cube_wf(cube_identity()),
    {
        let corners = CornerMap::default();
        let centers = CenterMap::default();
        let edges = EdgeMap::default();
        let cc = CenteredCornerMap::new(centers, corners);
        proof {
            corner::lemma_cm_identity_fields(0);
            center::lemma_center_identity_fields();
            edge::lemma_em_identity_fields(0);
            lemma_cc_split_wf(cm_identity(), center_identity());
        }
        Cube { centered_corners: cc, edges }
    }
}

impl Cube {
    /// Assembles a cube from its three components.
    pub fn new(centers: CenterMap, corners: CornerMap, edges: EdgeMap) -> (r: Cube)
        requires
            corner_wf(corners.raw),
            center_wf(centers.raw),
        ensures
            cc_corners_spec(r.centered_corners.raw) == corners.raw,
            cc_centers_spec(r.centered_corners.raw) == centers.raw,
            r.edges == edges,
    {
        Cube { centered_corners: CenteredCornerMap::new(centers, corners), edges }
    }

    /// The corner component.
    pub fn corners(&self) -> (r: CornerMap)
        ensures
            r.raw == cc_corners_spec(self.centered_corners.raw),
    {
        self.centered_corners.corners()
    }

    /// The edge component.
    pub fn edges(&self) -> (r: EdgeMap)
        ensures
            r == self.edges,
    {
        self.edges
    }

    /// The center component.
    pub fn centers(&self) -> (r: CenterMap)
        ensures
            r.raw == cc_centers_spec(self.centered_corners.raw),
    {
        self.centered_corners.centers()
    }

    /// Replaces the corner component.
    pub fn set_corners(&mut self, corners: CornerMap)
        requires
            corner_wf(corners.raw),
            center_wf(cc_centers_spec(old(self).centered_corners.raw)),
        ensures
            cc_corners_spec(final (self).centered_corners.raw) == corners.raw,
            cc_centers_spec(final (self).centered_corners.raw) == cc_centers_spec(
                old(self).centered_corners.raw,
            ),
            final (self).edges == old(self).edges,
    {
        let centers = self.centers();
        self.centered_corners = CenteredCornerMap::new(centers, corners);
    }

    /// Replaces the edge component.
    pub fn set_edges(&mut self, edges: EdgeMap)
        ensures
            final (self).edges == edges,
            final (self).centered_corners == old(self).centered_corners,
    {
        self.edges = edges;
    }

    /// Replaces the center component.
    pub fn set_centers(&mut self, centers: CenterMap)
        requires
            center_wf(centers.raw),
            corner_wf(cc_corners_spec(old(self).centered_corners.raw)),
        ensures
            cc_centers_spec(final (self).centered_corners.raw) == centers.raw,
            cc_corners_spec(final (self).centered_corners.raw) == cc_corners_spec(
                old(self).centered_corners.raw,
            ),
            final (self).edges == old(self).edges,
    {
        let corners = self.corners();
        self.centered_corners = CenteredCornerMap::new(centers, corners);
    }

    /// The two raw packed words: the corner-and-center word and the edge
    /// word. This is the persisted form of a cube.
    pub fn raw(self) -> (r: (u64, u64))
        ensures
            r.0 == self.centered_corners.raw,
            r.1 == self.edges.set,
    {
        (self.centered_corners.raw, self.edges.set)
    }

    /// Wraps two raw words without validating them. For values of
    /// internal origin, which the closed algebra keeps valid.
    pub fn from_raw_unchecked(centered_corners: u64, edges: u64) -> (r: Cube)
        ensures
            r.centered_corners.raw == centered_corners,
            r.edges.set == edges,
    {
        Cube { centered_corners: CenteredCornerMap { raw: centered_corners }, edges: EdgeMap { set: edges } }
    }

    /// The group product `self * rhs`: apply `self` first, then `rhs`.
    pub fn multiply(self, rhs: Cube) -> (r: Cube)
        requires
            cube_wf(self),
            cube_wf(rhs),
        ensures
            r == cube_mul_spec(self, rhs),
            cube_wf(r),
    {
        let ca = self.corners();
        let cb = rhs.corners();
        let na = self.centers();
        let nb = rhs.centers();
        let corners = ca.multiply(cb);
        let centers = na.multiply(nb);
        let edges = self.edges.multiply(rhs.edges);
        proof {
            lemma_cube_mul_wf(self, rhs);
        }
        Cube { centered_corners: CenteredCornerMap::new(centers, corners), edges }
    }

    /// The group inverse: the cube state that undoes this one.
    pub fn inverse(self) -> (r: Cube)
        requires
            cube_wf(self),
            corner_is_perm(cc_corners_spec(self.centered_corners.raw)),
            center_is_perm(cc_centers_spec(self.centered_corners.raw)),
            edge_is_perm(self.edges.set),
        ensures
            cube_inv_rel(r, self),
    {
        let corners = self.corners().inverse();
        let centers = self.centers().inverse();
        let edges = self.edges.inverse();
        proof {
            lemma_cc_split_wf(corners.raw, centers.raw);
        }
        Cube { centered_corners: CenteredCornerMap::new(centers, corners), edges }
    }

    /// `self.inverse() * rhs`, fused componentwise.
    pub fn inverse_multiply(self, rhs: Cube) -> (r: Cube)
        requires
            cube_wf(self),
            cube_wf(rhs),
            corner_is_perm(cc_corners_spec(self.centered_corners.raw)),
            center_is_perm(cc_centers_spec(self.centered_corners.raw)),
            edge_is_perm(self.edges.set),
        ensures
            cube_invmul_rel(r, self, rhs),
    {
        let corners = self.corners().inverse_multiply(rhs.corners());
        let centers = self.centers().inverse_multiply(rhs.centers());
        let edges = self.edges.inverse_multiply(rhs.edges);
        proof {
            lemma_cc_split_wf(corners.raw, centers.raw);
        }
        Cube { centered_corners: CenteredCornerMap::new(centers, corners), edges }
    }
}

/// Cube multiplication is associative.
///
/// Law: for all well-formed cubes `a`, `b`, `c`:
/// `(a * b) * c == a * (b * c)`.
pub proof fn lemma_cube_mul_assoc(a: Cube, b: Cube, c: Cube)
    requires
        cube_wf(a),
        cube_wf(b),
        cube_wf(c),
    ensures
        cube_mul_spec(cube_mul_spec(a, b), c) == cube_mul_spec(a, cube_mul_spec(b, c)),
{
    lemma_cube_mul_wf(a, b);
    lemma_cube_mul_wf(b, c);
    lemma_cube_mul_wf(cube_mul_spec(a, b), c);
    lemma_cube_mul_wf(a, cube_mul_spec(b, c));
    corner::lemma_corner_mul_assoc(
        cc_corners_spec(a.centered_corners.raw),
        cc_corners_spec(b.centered_corners.raw),
        cc_corners_spec(c.centered_corners.raw),
    );
    center::lemma_center_mul_assoc(
        cc_centers_spec(a.centered_corners.raw),
        cc_centers_spec(b.centered_corners.raw),
        cc_centers_spec(c.centered_corners.raw),
    );
    edge::lemma_edge_mul_assoc(a.edges.set, b.edges.set, c.edges.set);
}

/// The identity cube is a right and a left unit.
///
/// Law: for every well-formed cube `a`:
/// `a * identity == a` and `identity * a == a`.
pub proof fn lemma_cube_mul_identity(a: Cube)
    requires
        cube_wf(a),
    ensures
        cube_mul_spec(a, cube_identity()) == a,
        cube_mul_spec(cube_identity(), a) == a,
{
    let ca = cc_corners_spec(a.centered_corners.raw);
    let ce = cc_centers_spec(a.centered_corners.raw);
    assert(cube_wf(cube_identity())) by {
        corner::lemma_cm_identity_fields(0);
        center::lemma_center_identity_fields();
        edge::lemma_em_identity_fields(0);
        lemma_cc_split_wf(cm_identity(), center_identity());
    }
    assert(cc_corners_spec(cube_identity().centered_corners.raw) == cm_identity()
        && cc_centers_spec(cube_identity().centered_corners.raw) == center_identity()) by {
        corner::lemma_cm_identity_fields(0);
        center::lemma_center_identity_fields();
        lemma_cc_split_wf(cm_identity(), center_identity());
    }
    assert(cm_mul_spec(ca, cm_identity()) == ca && cm_mul_spec(cm_identity(), ca) == ca) by {
        corner::lemma_corner_mul_identity(ca);
    }
    assert(center_mul_spec(ce, center_identity()) == ce && center_mul_spec(center_identity(), ce)
        == ce) by {
        center::lemma_center_identity_fields();
        center::lemma_center_mul_identity(ce);
    }
    assert(em_mul_spec(a.edges.set, em_identity()) == a.edges.set && em_mul_spec(
        em_identity(),
        a.edges.set,
    ) == a.edges.set) by {
        edge::lemma_edge_mul_identity(a.edges.set);
    }
    assert(cube_mul_spec(a, cube_identity()).centered_corners.raw == (ca | ce));
    assert(cube_mul_spec(cube_identity(), a).centered_corners.raw == (ca | ce));
    assert(a.centered_corners.raw == (ca | ce));
}

/// Multiplying a cube by its inverse gives the identity.
///
/// Law: for every valid cube `a`: `a * a.inverse() == identity`.
pub proof fn lemma_cube_mul_inverse(a: Cube, inv: Cube)
    requires
        cube_wf(a),
        cube_inv_rel(inv, a),
    ensures
        cube_mul_spec(a, inv) == cube_identity(),
{
    corner::lemma_corner_mul_inverse(
        cc_corners_spec(a.centered_corners.raw),
        cc_corners_spec(inv.centered_corners.raw),
    );
    center::lemma_center_mul_inverse(
        cc_centers_spec(a.centered_corners.raw),
        cc_centers_spec(inv.centered_corners.raw),
    );
    edge::lemma_edge_mul_inverse(a.edges.set, inv.edges.set);
    lemma_cube_mul_wf(a, inv);
}

/// The fused inverse-multiply agrees with inverting and then multiplying.
///
/// Law: for all valid cubes `a`, `b`:
/// `a.inverse_multiply(b) == a.inverse() * b`.
pub proof fn lemma_cube_inverse_multiply(a: Cube, inv: Cube, b: Cube, m: Cube)
    requires
        cube_wf(a),
        cube_wf(b),
        corner_is_perm(cc_corners_spec(a.centered_corners.raw)),
        edge_is_perm(a.edges.set),
        cube_inv_rel(inv, a),
        cube_invmul_rel(m, a, b),
    ensures
        m == cube_mul_spec(inv, b),
{
    corner::lemma_corner_inverse_multiply(
        cc_corners_spec(a.centered_corners.raw),
        cc_corners_spec(inv.centered_corners.raw),
        cc_corners_spec(b.centered_corners.raw),
        cc_corners_spec(m.centered_corners.raw),
    );
    center::lemma_center_inverse_multiply(
        cc_centers_spec(a.centered_corners.raw),
        cc_centers_spec(inv.centered_corners.raw),
        cc_centers_spec(b.centered_corners.raw),
        cc_centers_spec(m.centered_corners.raw),
    );
    edge::lemma_edge_inverse_multiply(
        a.edges.set,
        inv.edges.set,
        b.edges.set,
        m.edges.set,
    );
    lemma_cube_mul_wf(inv, b);
    assert(m.centered_corners.raw == (cc_corners_spec(m.centered_corners.raw) | cc_centers_spec(
        m.centered_corners.raw,
    )));
}

/// 3x3 puzzle cube with the centers fixed in space: only corners and
/// edges move.
#[derive(Clone, Copy, Debug, PartialEq, Eq, Structural, Hash)]
pub struct FixedCentersCube {
    pub corners: CornerMap,
    pub edges: EdgeMap,
}

impl Default for FixedCentersCube {
    /// The solved state.
    fn default() -> (r: FixedCentersCube)
        ensures
            r.corners.raw == cm_identity(),
            r.edges.set == em_identity(),
    {
        FixedCentersCube { corners: CornerMap::default(), edges: EdgeMap::default() }
    }
}

/// Both components are well-formed.
pub open spec fn fc_wf(c: FixedCentersCube) -> bool {
    corner_wf(c.corners.raw) && edge_wf(c.edges.set)
}

impl FixedCentersCube {
    /// Assembles a fixed-centers cube from its components.
    pub fn new(corners: CornerMap, edges: EdgeMap) -> (r: FixedCentersCube)
        ensures
            r.corners == corners,
            r.edges == edges,
    {
        FixedCentersCube { corners, edges }
    }

    /// The corner component.
    pub fn corners(&self) -> (r: CornerMap)
        ensures
            r == self.corners,
    {
        self.corners
    }

    /// Replaces the corner component.
    pub fn set_corners(&mut self, corners: CornerMap)
        ensures
            final (self).corners == corners,
            final (self).edges == old(self).edges,
    {
        self.corners = corners;
    }

    /// The edge component.
    pub fn edges(&self) -> (r: EdgeMap)
        ensures
            r == self.edges,
    {
        self.edges
    }

    /// Replaces the edge component.
    pub fn set_edges(&mut self, edges: EdgeMap)
        ensures
            final (self).edges == edges,
            final (self).corners == old(self).corners,
    {
        self.edges = edges;
    }

    /// The group product `self * rhs`.
    pub fn multiply(self, rhs: FixedCentersCube) -> (r: FixedCentersCube)
        requires
            fc_wf(self),
            fc_wf(rhs),
        ensures
            r.corners.raw == cm_mul_spec(self.corners.raw, rhs.corners.raw),
            r.edges.set == em_mul_spec(self.edges.set, rhs.edges.set),
            fc_wf(r),
    {
        FixedCentersCube {
            corners: self.corners.multiply(rhs.corners),
            edges: self.edges.multiply(rhs.edges),
        }
    }

    /// The group inverse.
    pub fn inverse(self) -> (r: FixedCentersCube)
        requires
            fc_wf(self),
            corner_is_perm(self.corners.raw),
            edge_is_perm(self.edges.set),
        ensures
            corner_inv_rel(r.corners.raw, self.corners.raw),
            edge_inv_rel(r.edges.set, self.edges.set),
            fc_wf(r),
    {
        FixedCentersCube { corners: self.corners.inverse(), edges: self.edges.inverse() }
    }

    /// Whether both components are solved.
    pub fn is_solved(self) -> (r: bool)
        ensures
            r == (self.corners.raw == cm_identity() && self.edges.set == em_identity()),
    {
        self.corners.is_solved() && self.edges.is_solved()
    }

    /// Whether the state can be reached from solved: matching
    /// permutation parities and trivial orientation residues.
    pub fn has_solution(self) -> (r: bool)
        ensures
            r == (corner::corner_parity(self.corners.raw) == edge::edge_parity(self.edges.set)
                && eori_sum(self.edges.set, 12) % 2 == 0 && cori_sum(self.corners.raw, 8) % 3
                == 0),
    {
        let ep = self.edges.permutation_parity();
        let cp = self.corners.permutation_parity();
        let er = self.edges.orientation_residue();
        let cr = self.corners.orientation_residue();
        ep == cp && er.index() == 0 && cr.index() == 0
    }

    /// Validates both components: corners first, then edges.
    pub fn validate(self) -> (r: Result<(), MapError>)
        ensures
            r is Ok <==> corner_valid(self.corners.raw) && edge_valid(self.edges.set),
    {
        match self.corners.validate() {
            Err(err) => Err(err),
            Ok(_) => match self.edges.validate() {
                Err(err) => Err(err),
                Ok(_) => Ok(()),
            },
        }
    }
}

} // verus!
