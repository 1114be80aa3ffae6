//! The solver's coordinate views of a state: each a small integer, moved
//! directly through the precomputed tables instead of through full-state
//! multiplication.
use super::cube::CubieCube;
use super::db::{esym2csym, CubeTable};
use super::util;
use vstd::prelude::*;

verus! {

/// A phase-1 move ordinal.
#[derive(Clone, Copy, Debug, PartialEq, Eq, Structural)]
pub struct Turn(pub u8);

impl Default for Turn {
    fn default() -> (r: Turn) {
        Turn(0)
    }
}

impl Turn {
    /// The same turn as seen through the fixed conjugating symmetry.
    pub fn conjugate(self, db: &CubeTable) -> (r: Turn) {
        Turn(util::g8x(&db.sym_move, 3, self.0 as usize))
    }

    /// The turn behind a phase-2 ordinal.
    pub fn from_ud(t: UDTurn) -> (r: Turn) {
        Turn(util::ud2std(t.0 as usize))
    }
}

/// A phase-2 move ordinal.
#[derive(Clone, Copy, Debug, PartialEq, Eq, Structural)]
pub struct UDTurn(pub u8);

impl UDTurn {
    /// The ordinal as a table index.
    pub fn index(self) -> (r: usize) {
        self.0 as usize
    }
}

/// A symmetry-folded corner-permutation coordinate.
#[derive(Clone, Copy, Debug, PartialEq, Eq, Structural)]
pub struct SymCPerm(pub u16);

/// A symmetry-folded edge-permutation coordinate.
#[derive(Clone, Copy, Debug, PartialEq, Eq, Structural)]
pub struct SymEPerm(pub u16);

/// A middle-slice permutation coordinate.
#[derive(Clone, Copy, Debug, PartialEq, Eq, Structural)]
pub struct MPerm(pub u16);

/// A middle-slice occupancy coordinate.
#[derive(Clone, Copy, Debug, PartialEq, Eq, Structural)]
pub struct UDSlice(pub u16);

/// A symmetry-folded edge-orientation coordinate.
#[derive(Clone, Copy, Debug, PartialEq, Eq, Structural)]
pub struct SymFlip(pub u16);

/// A symmetry-folded corner-orientation coordinate.
#[derive(Clone, Copy, Debug, PartialEq, Eq, Structural)]
pub struct SymTwist(pub u16);

impl MPerm {
    /// The coordinate of a state.
    pub fn from(_db: &CubeTable, cc: &CubieCube) -> (r: MPerm) {
        MPerm((cc.get_m_perm() % 65536) as u16)
    }

    /// One phase-2 move applied in coordinate space.
    pub fn turn(self, db: &CubeTable, t: UDTurn) -> (r: MPerm) {
        MPerm(util::g16x(&db.m_perm_move, self.0 as usize, t.index()))
    }

    /// One phase-2 move applied to the inverse state.
    pub fn turn_inverse(self, db: &CubeTable, t: UDTurn) -> (r: MPerm) {
        let inv = util::g8(&db.m_perm_inv, self.0 as usize);
        let moved = util::g16x(&db.m_perm_move, inv as usize, t.index());
        MPerm(util::g8(&db.m_perm_inv, moved as usize) as u16)
    }
}

impl SymCPerm {
    /// The coordinate of a state.
    pub fn from(db: &CubeTable, cc: &CubieCube) -> (r: SymCPerm) {
        SymCPerm((db.get_c_perm_sym_of(cc) % 65536) as u16)
    }

    /// The symmetry part.
    pub fn sym(self) -> (r: u16) {
        self.0 % 16
    }

    /// The representative part.
    pub fn raw(self) -> (r: u16) {
        self.0 / 16
    }

    /// One phase-2 move applied in coordinate space.
    pub fn turn(self, db: &CubeTable, t: UDTurn) -> (r: SymCPerm) {
        let sym_turn = util::g8x(&db.sym_move_ud, (self.0 % 16) as usize, t.index());
        let mut raw = util::g16x(&db.c_perm_move, (self.0 / 16) as usize, sym_turn as usize);
        let m = util::g8x(&db.sym_mult, (raw % 16) as usize, (self.0 % 16) as usize);
        raw = raw ^ (m as u16);
        SymCPerm(raw)
    }

    /// The coordinate of the inverse state.
    pub fn inverse(self, db: &CubeTable) -> (r: SymCPerm) {
        SymCPerm(db.get_perm_sym_inv(self.0 / 16, self.0 % 16, true))
    }
}

impl SymEPerm {
    /// The coordinate of a state.
    pub fn from(db: &CubeTable, cc: &CubieCube) -> (r: SymEPerm) {
        SymEPerm(db.get_e_perm_sym_of(cc))
    }

    /// One phase-2 move applied in coordinate space.
    pub fn turn(self, db: &CubeTable, t: UDTurn) -> (r: SymEPerm) {
        let sym_turn = util::g8x(&db.sym_move_ud, (self.0 % 16) as usize, t.index());
        let mut raw = util::g16x(&db.e_perm_move, (self.0 / 16) as usize, sym_turn as usize);
        let m = util::g8x(&db.sym_mult, (raw % 16) as usize, (self.0 % 16) as usize);
        raw = raw ^ (m as u16);
        SymEPerm(raw)
    }

    /// The coordinate of the inverse state.
    pub fn inverse(self, db: &CubeTable) -> (r: SymEPerm) {
        SymEPerm(db.get_perm_sym_inv(self.0 / 16, self.0 % 16, false))
    }
}

impl SymTwist {
    /// The coordinate of a state.
    pub fn from(db: &CubeTable, cc: &CubieCube) -> (r: SymTwist)
        requires
            super::cube::cubie_corners_wf(cc.corners),
    {
        SymTwist(db.get_twist_sym_of(cc))
    }

    /// One phase-1 move applied in coordinate space.
    pub fn turn(self, db: &CubeTable, t: Turn) -> (r: SymTwist) {
        SymTwist(db.twist_sym_move(self.0, t.0))
    }
}

impl SymFlip {
    /// The coordinate of a state.
    pub fn from(db: &CubeTable, cc: &CubieCube) -> (r: SymFlip) {
        SymFlip(db.get_flip_sym_of(cc))
    }

    /// One phase-1 move applied in coordinate space.
    pub fn turn(self, db: &CubeTable, t: Turn) -> (r: SymFlip) {
        SymFlip(db.flip_sym_move(self.0, t.0))
    }
}

impl UDSlice {
    /// The coordinate of a state.
    pub fn from(_db: &CubeTable, cc: &CubieCube) -> (r: UDSlice)
        requires
            super::cube::cubie_edges_wf(cc.edges),
    {
        UDSlice((cc.get_ud_slice() % 65536) as u16)
    }

    /// One phase-1 move applied in coordinate space.
    pub fn turn(self, db: &CubeTable, t: Turn) -> (r: UDSlice) {
        UDSlice(util::g16x(&db.ud_slice_move, self.0 as usize, t.0 as usize))
    }
}

/// The admissible bound for a slice-and-twist pair.
pub fn prune_slice_twist(db: &CubeTable, s: UDSlice, t: SymTwist) -> (r: u32)
    ensures
        r < 16,
{
    db.prune_ud_twist(s.0, t.0)
}

/// The admissible bound for a slice-and-flip pair.
pub fn prune_slice_flip(db: &CubeTable, s: UDSlice, f: SymFlip) -> (r: u32)
    ensures
        r < 16,
{
    db.prune_ud_flip(s.0, f.0)
}

/// The admissible bound for a twist-and-flip pair.
pub fn prune_twist_flip(db: &CubeTable, t: SymTwist, f: SymFlip) -> (r: u32)
    ensures
        r < 16,
{
    let index = ((f.0 as u32) ^ ((t.0 as u32) % 8)) % 65536;
    let twist_flip_rf = util::g16(&db.flip_s2rf, index as usize) as u32;
    db.un_prune_twist_flip((((t.0 as u32) / 8) * 2048 + twist_flip_rf) % 0x8000_0000)
}

/// The admissible phase-2 bound for a slice-and-corner pair.
pub fn prune_mperm_cperm(db: &CubeTable, m: MPerm, c: SymCPerm) -> (r: u32)
    ensures
        r < 16,
{
    let conj = util::g16x(&db.m_perm_conj, m.0 as usize, c.sym() as usize);
    db.prune_cperm(((c.raw() as u32) * 24 + conj as u32) % 0x8000_0000)
}

/// The admissible phase-2 bound for a corner-and-edge pair.
pub fn prune_cperm_eperm(db: &CubeTable, c: SymCPerm, e: SymEPerm) -> (r: u32)
    ensures
        r < 16,
{
    let combp = util::g8(&db.perm2combp, (c.0 / 16) as usize);
    let si = util::g8x(&db.sym_mult_inv, (e.0 % 16) as usize, (c.0 % 16) as usize);
    let conj = util::g16x(&db.ccomb_p_conj, combp as usize, si as usize);
    db.prune_eperm((((e.0 / 16) as u32) * 140 + conj as u32) % 0x8000_0000)
}

/// The phase-1 search node: both orientation coordinates, their
/// conjugated twins, the slice coordinate and the cached bound.
#[derive(Clone, Copy, Debug, PartialEq, Eq, Structural)]
pub struct Phase1Cube {
    pub twist: SymTwist,
    pub twistc: SymTwist,
    pub flip: SymFlip,
    pub flipc: SymFlip,
    pub slice: UDSlice,
    pub prun: i8,
}

impl Default for Phase1Cube {
    fn default() -> (r: Phase1Cube) {
        Phase1Cube {
            twist: SymTwist(0),
            twistc: SymTwist(0),
            flip: SymFlip(0),
            flipc: SymFlip(0),
            slice: UDSlice(0),
            prun: 0,
        }
    }
}

impl Phase1Cube {
    /// The slice-and-flip bound of this node.
    pub fn p1(&self, db: &CubeTable) -> (r: i32)
        ensures
            0 <= r < 16,
    {
        prune_slice_flip(db, self.slice, self.flip) as i32
    }

    /// The slice-and-twist bound of this node.
    pub fn p2(&self, db: &CubeTable) -> (r: i32)
        ensures
            0 <= r < 16,
    {
        prune_slice_twist(db, self.slice, self.twist) as i32
    }

    /// Loads the node from a state and keeps the largest of its bounds;
    /// reports whether the node can still meet the depth budget.
    pub fn set_with_prun(&mut self, db: &CubeTable, cc: &CubieCube, depth: u32) -> (r: bool)
        requires
            super::cube::cubie_wf(*cc),
        ensures
            0 <= final (self).prun < 16,
    {
        let depth_i = if depth < 127 {
            depth as i8
        } else {
            127
        };
        self.twist = SymTwist::from(db, cc);
        self.flip = SymFlip::from(db, cc);
        let p0 = prune_twist_flip(db, self.twist, self.flip);
        self.prun = (p0 % 16) as i8;
        if self.prun > depth_i {
            return false;
        }
        self.slice = UDSlice::from(db, cc);
        let pa = self.p1(db);
        let pb = self.p2(db);
        let mut pr = self.prun as i32;
        if pa > pr {
            pr = pa;
        }
        if pb > pr {
            pr = pb;
        }
        self.prun = (pr % 16) as i8;
        if self.prun > depth_i {
            return false;
        }
        let mut pc = CubieCube::default();
        cc.corn_conjugate(db, 1, &mut pc);
        let cc2 = *cc;
        cc2.edge_conjugate(db, 1, &mut pc);
        self.twistc = SymTwist::from(db, &pc);
        self.flipc = SymFlip::from(db, &pc);
        let p3 = prune_twist_flip(db, self.twistc, self.flipc) as i32;
        let mut pr2 = self.prun as i32;
        if p3 > pr2 {
            pr2 = p3;
        }
        self.prun = (pr2 % 16) as i8;
        self.prun <= depth_i
    }
}

/// The phase-2 search node.
#[derive(Clone, Copy, Debug, PartialEq, Eq, Structural)]
pub struct Phase2Cube {
    pub mperm: MPerm,
    pub eperm: SymEPerm,
    pub cperm: SymCPerm,
    pub last_turn: UDTurn,
}

impl Default for Phase2Cube {
    fn default() -> (r: Phase2Cube) {
        Phase2Cube { mperm: MPerm(0), eperm: SymEPerm(0), cperm: SymCPerm(0), last_turn: UDTurn(0) }
    }
}

impl Phase2Cube {
    /// One phase-2 move applied to every coordinate.
    pub fn turn(self, db: &CubeTable, t: UDTurn) -> (r: Phase2Cube) {
        Phase2Cube {
            mperm: self.mperm.turn(db, t),
            eperm: self.eperm.turn(db, t),
            cperm: self.cperm.turn(db, t),
            last_turn: t,
        }
    }

    /// Whether every coordinate is at its solved value, up to symmetry.
    pub fn is_solved(self) -> (r: bool) {
        self.mperm.0 == 0 && (self.eperm.0 | self.cperm.0) <= 0xf
    }

    /// The direct phase-2 bound.
    pub fn prune_direct(&self, db: &CubeTable) -> (r: i32)
        ensures
            0 <= r < 16,
    {
        prune_mperm_cperm(db, self.mperm, self.cperm) as i32
    }

    /// The inverse-state phase-2 bound.
    pub fn prune_inverse(&self, db: &CubeTable) -> (r: i32)
        ensures
            0 <= r < 16,
    {
        let edgei = self.eperm.inverse(db);
        let corni = self.cperm.inverse(db);
        let a = prune_cperm_eperm(db, corni, edgei) as i32;
        let b = prune_cperm_eperm(db, self.cperm, self.eperm) as i32;
        if a > b {
            a
        } else {
            b
        }
    }
}

/// The phase-2 ordinal of the conjugated counterpart of a phase-1 move.
pub fn conjugate_move(l: u32) -> (r: u32)
    ensures
        r < 16,
{
    (((l % 32) / 2) + ((0b10011010010110_00_0101_010110_00_0101u32 >> (((l % 16) * 2) as u32)) % 4)) % 16
}

} // verus!
