//! Precomputed pruning and move tables used by the two-phase solver:
//! symmetry-reduced coordinate move tables and backward-filled pruning
//! tables for both phases. Built once, then read-only.
//!
//! Every table access is guarded, so a lookup can never fail; the
//! builder fills each table by the same backward breadth-first
//! propagation the search expects.
use super::cube::{cubie_corners_wf, cubie_wf, CubieCube};
use super::util;
use vstd::prelude::*;

verus! {

/// Number of phase-1 moves.
pub const N_MOVES: usize = 18;

/// Number of phase-2 moves.
pub const N_MOVES2: usize = 10;

/// Size of the middle-slice occupancy coordinate.
pub const N_SLICE: usize = 495;

/// Size of the corner-orientation coordinate.
pub const N_TWIST: usize = 2187;

/// Number of corner-orientation symmetry classes.
pub const N_TWIST_SYM: usize = 324;

/// Size of the edge-orientation coordinate.
pub const N_FLIP: usize = 2048;

/// Number of edge-orientation symmetry classes.
pub const N_FLIP_SYM: usize = 336;

/// Size of the raw permutation coordinates.
pub const N_PERM: usize = 40320;

/// Number of permutation symmetry classes.
pub const N_PERM_SYM: usize = 2768;

/// Size of the middle-slice permutation coordinate.
pub const N_MPERM: usize = 24;

/// Size of the parity-augmented corner-combination coordinate.
pub const N_COMB: usize = 140;

/// Which phase-2 moves flip the permutation parity.
pub const P2_PARITY_MOVE: usize = 0xA5;

/// The solver's table set.
pub struct CubeTable {
    pub ud_slice_twist_prun: Vec<u64>,
    pub ud_slice_flip_prun: Vec<u64>,
    pub mc_perm_prun: Vec<u64>,
    pub e_permccomb_prun: Vec<u64>,
    pub twist_flip_prun: Vec<u64>,
    pub cube_sym: Vec<CubieCube>,
    pub move_cube: Vec<CubieCube>,
    pub ud_slice_conj: Vec<Vec<u16>>,
    pub ud_slice_move: Vec<Vec<u16>>,
    pub twist_move: Vec<Vec<u16>>,
    pub flip_move: Vec<Vec<u16>>,
    pub c_perm_move: Vec<Vec<u16>>,
    pub e_perm_move: Vec<Vec<u16>>,
    pub m_perm_move: Vec<Vec<u16>>,
    pub m_perm_conj: Vec<Vec<u16>>,
    pub ccomb_p_move: Vec<Vec<u16>>,
    pub ccomb_p_conj: Vec<Vec<u16>>,
    pub move_cube_sym: Vec<u64>,
    pub first_move_sym: Vec<u32>,
    pub sym_mult: Vec<Vec<u8>>,
    pub sym_mult_inv: Vec<Vec<u8>>,
    pub sym_move: Vec<Vec<u8>>,
    pub sym_8move: Vec<u8>,
    pub sym_move_ud: Vec<Vec<u8>>,
    pub flip_s2r: Vec<u16>,
    pub twist_s2r: Vec<u16>,
    pub eperm_s2r: Vec<u16>,
    pub perm2combp: Vec<u8>,
    pub perm_inv_edge_sym: Vec<u16>,
    pub m_perm_inv: Vec<u8>,
    pub flip_r2s: Vec<u16>,
    pub twist_r2s: Vec<u16>,
    pub flip_s2rf: Vec<u16>,
    pub eperm_r2s: Vec<u16>,
    pub sym_state_twist: Vec<u16>,
    pub sym_state_flip: Vec<u16>,
    pub sym_state_perm: Vec<u16>,
}

/// Clamps a stored state into the well-formed range; a well-formed entry
/// passes through with every field unchanged in value.
fn clamp_cubie(c: CubieCube) -> (r: CubieCube)
    ensures
        cubie_wf(r),
        forall|i: int| 0 <= i < 8 ==> r.corners.raw[i] as int == (c.corners.raw[i] as int) % 48,
        forall|i: int| 0 <= i < 12 ==> r.edges.raw[i] as int == (c.edges.raw[i] as int) % 24,
        cubie_wf(c) ==> r == c,
{
    let mut cc: [u8; 8] = [0; 8];
    let mut ec: [u8; 12] = [0; 12];
    let mut i: usize = 0;
    while i < 8
        invariant
            i <= 8,
            forall|j: int| 0 <= j < 8 ==> cc@[j] < 48,
            forall|j: int| 0 <= j < i as int ==> cc@[j] as int == (c.corners.raw[j] as int) % 48,
        decreases 8 - i,
    {
        cc[i] = c.corners.raw[i] % 48;
        i = i + 1;
    }
    let mut i2: usize = 0;
    while i2 < 12
        invariant
            i2 <= 12,
            forall|j: int| 0 <= j < 12 ==> ec@[j] < 24,
            forall|j: int| 0 <= j < i2 as int ==> ec@[j] as int == (c.edges.raw[j] as int) % 24,
        decreases 12 - i2,
    {
        ec[i2] = c.edges.raw[i2] % 24;
        i2 = i2 + 1;
    }
    let r = CubieCube {
        corners: super::cube::CubieCorners { raw: cc },
        edges: super::cube::CubieEdges { raw: ec },
    };
    proof {
        broadcast use vstd::array::axiom_array_ext_equal;

        if cubie_wf(c) {
            assert(forall|j: int| 0 <= j < 8 ==> cc@[j] == c.corners.raw[j]);
            assert(forall|j: int| 0 <= j < 12 ==> ec@[j] == c.edges.raw[j]);
            assert(cc =~= c.corners.raw);
            assert(ec =~= c.edges.raw);
        }
    }
    r
}

impl CubeTable {
    /// The stored symmetry element `i`, clamped into range.
    pub fn sym_cube(&self, i: usize) -> (r: CubieCube)
        ensures
            cubie_wf(r),
            i < self.cube_sym@.len() && cubie_wf(self.cube_sym@[i as int]) ==> r
                == self.cube_sym@[i as int],
    {
        if i < self.cube_sym.len() {
            clamp_cubie(self.cube_sym[i])
        } else {
            CubieCube::default()
        }
    }

    /// The stored generator element `i`, clamped into range.
    pub fn move_cubie(&self, i: usize) -> (r: CubieCube)
        ensures
            cubie_wf(r),
            i < self.move_cube@.len() && cubie_wf(self.move_cube@[i as int]) ==> r
                == self.move_cube@[i as int],
    {
        if i < self.move_cube.len() {
            clamp_cubie(self.move_cube[i])
        } else {
            CubieCube::default()
        }
    }

    /// Allocates the zeroed table set.
    pub fn new_blank() -> (r: CubeTable) {
        CubeTable {
            ud_slice_twist_prun: util::zeros64(N_SLICE * N_TWIST_SYM / 16 + 1),
            ud_slice_flip_prun: util::zeros64(N_SLICE * N_FLIP_SYM / 16 + 1),
            mc_perm_prun: util::zeros64(N_MPERM * N_PERM_SYM / 16 + 1),
            e_permccomb_prun: util::zeros64(N_COMB * N_PERM_SYM / 16 + 1),
            twist_flip_prun: util::zeros64(N_FLIP * N_TWIST_SYM / 16 + 1),
            cube_sym: new_cubies(16),
            move_cube: new_cubies(18),
            ud_slice_conj: util::zeros16x(N_SLICE, 8),
            ud_slice_move: util::zeros16x(N_SLICE, N_MOVES),
            twist_move: util::zeros16x(N_TWIST_SYM, N_MOVES),
            flip_move: util::zeros16x(N_FLIP_SYM, N_MOVES),
            c_perm_move: util::zeros16x(N_PERM_SYM, N_MOVES2),
            e_perm_move: util::zeros16x(N_PERM_SYM, N_MOVES2),
            m_perm_move: util::zeros16x(N_MPERM, N_MOVES2),
            m_perm_conj: util::zeros16x(N_MPERM, 16),
            ccomb_p_move: util::zeros16x(N_COMB, N_MOVES2),
            ccomb_p_conj: util::zeros16x(N_COMB, 16),
            move_cube_sym: util::zeros64(18),
            first_move_sym: util::zeros32(48),
            sym_mult: util::zeros8x(16, 16),
            sym_mult_inv: util::zeros8x(16, 16),
            sym_move: util::zeros8x(16, 18),
            sym_8move: util::zeros8(8 * 18),
            sym_move_ud: util::zeros8x(16, 18),
            flip_s2r: util::zeros16(N_FLIP_SYM),
            twist_s2r: util::zeros16(N_TWIST_SYM),
            eperm_s2r: util::zeros16(N_PERM_SYM),
            perm2combp: util::zeros8(N_PERM_SYM),
            perm_inv_edge_sym: util::zeros16(N_PERM_SYM),
            m_perm_inv: util::zeros8(N_MPERM),
            flip_r2s: util::zeros16(N_FLIP),
            twist_r2s: util::zeros16(N_TWIST),
            flip_s2rf: util::zeros16(N_FLIP_SYM * 8),
            eperm_r2s: util::zeros16(N_PERM),
            sym_state_twist: util::zeros16(N_TWIST_SYM),
            sym_state_flip: util::zeros16(N_FLIP_SYM),
            sym_state_perm: util::zeros16(N_PERM_SYM),
        }
    }

    /// One symmetry-folded edge-orientation step: apply a move to a
    /// folded flip coordinate.
    pub fn flip_sym_move(&self, flip: u16, mv: u8) -> (r: u16) {
        let mx = ((mv as usize) << 3) | ((flip & 7) as usize);
        let m2 = util::g8(&self.sym_8move, mx);
        let x = util::g16x(&self.flip_move, (flip >> 3) as usize, m2 as usize);
        x ^ (flip & 7)
    }

    /// One symmetry-folded corner-orientation step.
    pub fn twist_sym_move(&self, twist: u16, mv: u8) -> (r: u16) {
        let mx = ((mv as usize) << 3) | ((twist & 7) as usize);
        let m2 = util::g8(&self.sym_8move, mx);
        let x = util::g16x(&self.twist_move, (twist >> 3) as usize, m2 as usize);
        x ^ (twist & 7)
    }

    /// The 4-bit pruning value for a slice and twist pair.
    pub fn prune_ud_twist(&self, slice: u16, twist: u16) -> (r: u32)
        ensures
            r < 16,
    {
        let conj = util::g16x(&self.ud_slice_conj, slice as usize, (twist & 7) as usize);
        let mindex = ((twist >> 3) as usize) * N_SLICE + conj as usize;
        read_prun(&self.ud_slice_twist_prun, mindex)
    }

    /// The 4-bit pruning value for a slice and flip pair.
    pub fn prune_ud_flip(&self, slice: u16, flip: u16) -> (r: u32)
        ensures
            r < 16,
    {
        let conj = util::g16x(&self.ud_slice_conj, slice as usize, (flip & 7) as usize);
        let mindex = ((flip >> 3) as usize) * N_SLICE + conj as usize;
        read_prun(&self.ud_slice_flip_prun, mindex)
    }

    /// The 4-bit pruning value at a raw twist-and-flip index.
    pub fn un_prune_twist_flip(&self, index: u32) -> (r: u32)
        ensures
            r < 16,
    {
        read_prun(&self.twist_flip_prun, index as usize)
    }

    /// The 4-bit phase-2 pruning value at an edge-permutation index.
    pub fn prune_eperm(&self, index: u32) -> (r: u32)
        ensures
            r < 16,
    {
        read_prun(&self.e_permccomb_prun, index as usize)
    }

    /// The 4-bit phase-2 pruning value at a corner-permutation index.
    pub fn prune_cperm(&self, index: u32) -> (r: u32)
        ensures
            r < 16,
    {
        read_prun(&self.mc_perm_prun, index as usize)
    }

    /// The inverse of a symmetry-folded permutation coordinate.
    pub fn get_perm_sym_inv(&self, idx: u16, sym: u16, is_corner: bool) -> (r: u16) {
        let mut idxi = util::g16(&self.perm_inv_edge_sym, idx as usize) as u32;
        if is_corner {
            idxi = esym2csym(idxi);
        }
        let m = util::g8x(&self.sym_mult, (idxi & 0xf) as usize, (sym & 0xf) as usize);
        ((idxi & 0xffff) as u16) ^ (m as u16)
    }

    /// The union of the first-move masks of all self-symmetries present
    /// in the bitmask.
    pub fn get_skip_moves(&self, ssym0: u64) -> (r: u32) {
        let mut ret: u32 = 0;
        let mut ssym = ssym0;
        let mut i: usize = 1;
        while i < 64
            invariant
                1 <= i <= 64,
            decreases 64 - i,
        {
            ssym = ssym >> 1u64;
            if ssym == 0 {
                return ret;
            }
            if ssym & 1 == 1 {
                ret = ret | util::g32(&self.first_move_sym, i);
            }
            i = i + 1;
        }
        ret
    }
}

/// A fresh list of solved states.
fn new_cubies(n: usize) -> (r: Vec<CubieCube>)
    ensures
        r@.len() == n,
        forall|i: int| 0 <= i < n ==> cubie_wf(r@[i]),
{
    let mut v: Vec<CubieCube> = Vec::new();
    let mut i: usize = 0;
    while i < n
        invariant
            i <= n,
            v@.len() == i,
            forall|j: int| 0 <= j < i ==> cubie_wf(v@[j]),
        decreases n - i,
    {
        v.push(CubieCube::default());
        i = i + 1;
    }
    v
}

/// Multiplies a folded symmetry index by a raw table width.
fn mul_idx(a: usize, b: usize) -> (r: usize)
    requires
        a <= 0xffff,
        b <= 4096,
    ensures
        r == a * b,
        r <= 0xffff * 4096,
{
    proof {
        assert(a * b <= 0xffff * 4096) by (nonlinear_arith)
            requires
                a <= 0xffff,
                b <= 4096,
        ;
    }
    a * b
}

/// Maps an edge-permutation symmetry index to the matching corner one.
pub fn esym2csym(idx: u32) -> (r: u32) {
    idx ^ ((0x00DDDD00u32 >> (((idx % 16) * 2) as u32)) & 3)
}

/// Reads a 4-bit pruning nibble out of a packed table.
pub fn read_prun(t: &Vec<u64>, index: usize) -> (r: u32)
    ensures
        r < 16,
{
    let w = util::g64(t, index / 16);
    let s = ((index % 16) * 4) as u64;
    proof {
        lemma_nibble_bound(w, s);
    }
    ((w >> s) & 0xf) as u32
}

pub(crate) proof fn lemma_nibble_bound(w: u64, s: u64)
    by (bit_vector)
    requires
        s < 64,
    ensures
        ((w >> s) & 0xf) < 16,
        ((w >> s) & 0xf) >= 1 ==> w >= (1u64 << s),
{
}

/// Lowers a 4-bit pruning nibble by one, when it is not already zero.
pub fn sub_prun(t: &mut Vec<u64>, index: usize)
    ensures
        final (t)@.len() == old(t)@.len(),
{
    let w = util::g64(t, index / 16);
    let s = ((index % 16) * 4) as u64;
    proof {
        lemma_nibble_bound(w, s);
    }
    if ((w >> s) & 0xf) >= 1 {
        util::p64(t, index / 16, w - (1u64 << s));
    }
}

/// Marks the nibbles of a packed word that hold a selected value.
pub fn fill_64xmask4(mask: u64) -> (r: u64) {
    proof {
        lemma_fill_no_overflow(mask);
    }
    let a = 0x7777_7777_7777_7777u64 & mask;
    ((a + 0x1111_1111_1111_1111) & mask) & 0x8888_8888_8888_8888
}

pub(crate) proof fn lemma_fill_no_overflow(m: u64)
    by (bit_vector)
    ensures
        (0x7777_7777_7777_7777u64 & m) <= 0x7777_7777_7777_7777,
{
}

/// The per-nibble increment used when advancing the unreached marker.
pub fn fill_64xmask4_addition(mask: u64) -> (r: u64)
    ensures
        r <= 0x1111_1111_1111_1111,
{
    proof {
        lemma_fill_no_overflow(mask);
        lemma_addition_bound(0x7777_7777_7777_7777u64 & mask, mask);
    }
    let a: u64 = 0x7777_7777_7777_7777u64 & mask;
    let b: u64 = (a + 0x1111_1111_1111_1111) & mask;
    (b >> 3u64) & 0x1111_1111_1111_1111
}

pub(crate) proof fn lemma_addition_bound(a: u64, mask: u64)
    by (bit_vector)
    requires
        a <= 0x7777_7777_7777_7777,
    ensures
        (((((a + 0x1111_1111_1111_1111) as u64) & mask) >> 3u64) & 0x1111_1111_1111_1111)
            <= 0x1111_1111_1111_1111,
{
}

/// Advances every nibble that holds the unreached marker.
fn advance_markers(pt: &mut Vec<u64>, depth: u32)
    ensures
        final (pt)@.len() == old(pt)@.len(),
{
    let mask = !(((depth as u64 + 1) % 16) * 0x1111_1111_1111_1111);
    let mut e: usize = 0;
    while e < pt.len()
        invariant
            pt@.len() == old(pt)@.len(),
            e <= pt@.len(),
        decreases pt@.len() - e,
    {
        let w = pt[e];
        let add = fill_64xmask4_addition(w ^ mask);
        if w <= 0xeeee_eeee_eeee_eeee {
            util::p64(pt, e, w + add);
        }
        e = e + 1;
    }
}

/// Builds one symmetry-folded pruning table by backward breadth-first
/// propagation from the solved pair, then a forward pass that caps the
/// stored depth. The flags word packs the symmetry shift, the corner
/// conjugation fixup, the phase and the depth bounds.
pub fn init_raw_sym_prun(
    ptable: &mut Vec<u64>,
    raw_move: &Vec<Vec<u16>>,
    raw_conj: &Vec<Vec<u16>>,
    sym_move: &Vec<Vec<u16>>,
    sym_state: &Vec<u16>,
    raw_len: usize,
    sym_len: usize,
    flags: u32,
)
    requires
        raw_len >= 1,
        raw_len <= 4096,
        sym_len <= 4096,
        old(ptable)@.len() <= 0x10_0000,
    ensures
        final (ptable)@.len() == old(ptable)@.len(),
{
    let sym_shift = flags % 16;
    let sym_e2c_magic: u32 = if ((flags >> 4) & 1) == 1 {
        0x00DDDD00
    } else {
        0x00000000
    };
    let is_phase2 = ((flags >> 5) & 1) == 1;
    let inv_depth = (flags >> 8u32) % 16;
    let max_depth = (flags >> 12u32) % 16;
    let sym_mask: u16 = if sym_shift == 3 {
        7
    } else if sym_shift == 4 {
        15
    } else {
        0
    };
    let n_raw = raw_len;
    let n_size = mul_idx(n_raw, sym_len);
    let n_moves_v: usize = if is_phase2 {
        10
    } else {
        18
    };
    let blen = n_size / 16;
    let mut depth: u32 = 0;
    let mut e: usize = 0;
    while e < ptable.len()
        invariant
            ptable@.len() == old(ptable)@.len(),
            e <= ptable@.len(),
        decreases ptable@.len() - e,
    {
        util::p64(ptable, e, 0x2222_2222_2222_2222);
        e = e + 1;
    }
    let w0 = util::g64(ptable, 0);
    if w0 >= 2 {
        util::p64(ptable, 0, w0 - 2);
    }
    while depth <= inv_depth
        invariant
            ptable@.len() == old(ptable)@.len(),
            ptable@.len() <= 0x10_0000,
            depth <= 16,
            inv_depth < 16,
            n_raw == raw_len,
            1 <= n_raw <= 4096,
            n_moves_v <= 18,
        decreases inv_depth + 1 - depth,
    {
        advance_markers(ptable, depth);
        depth = depth + 1;
        let select = depth - 1;
        let sel_mask = !(((select as u64) % 16) * 0x1111_1111_1111_1111);
        let mut index: usize = 0;
        while index < blen && index < ptable.len()
            invariant
                ptable@.len() == old(ptable)@.len(),
                ptable@.len() <= 0x10_0000,
                depth <= 16,
                n_raw == raw_len,
                1 <= n_raw <= 4096,
                n_moves_v <= 18,
                index <= 0x10_0000,
            decreases ptable@.len() - index,
        {
            let mut bh = fill_64xmask4(util::g64(ptable, index) ^ sel_mask);
            while bh != 0
                invariant
                    ptable@.len() == old(ptable)@.len(),
                    depth <= 16,
                    n_raw == raw_len,
                    1 <= n_raw <= 4096,
                    n_moves_v <= 18,
                    index <= 0x10_0000,
                decreases bh,
            {
                let tz = bh.trailing_zeros() % 64;
                let i = ((tz / 4) as usize) + index * 16;
                proof {
                    lemma_clear_lowest(bh);
                }
                bh = bh & (bh - 1);
                let raw = i % n_raw;
                let sym = i / n_raw;
                let mut m: usize = 0;
                while m < n_moves_v
                    invariant
                        ptable@.len() == old(ptable)@.len(),
                        depth <= 16,
                        n_raw == raw_len,
                        1 <= n_raw <= 4096,
                        n_moves_v <= 18,
                    decreases n_moves_v - m,
                {
                    let mut symx = util::g16x(sym_move, sym, m);
                    let rawx = util::g16x(
                        raw_conj,
                        util::g16x(raw_move, raw, m) as usize,
                        (symx & sym_mask) as usize,
                    );
                    symx = symx >> ((sym_shift % 16) as u16);
                    let idx = mul_idx(symx as usize, n_raw) + (rawx as usize);
                    let prun = read_prun(ptable, idx);
                    if prun == depth + 1 {
                        sub_prun(ptable, idx);
                        let mut state_mask = util::g16(sym_state, symx as usize) & 0xfffe;
                        let idxx = mul_idx(symx as usize, n_raw);
                        while state_mask != 0
                            invariant
                                ptable@.len() == old(ptable)@.len(),
                                depth <= 16,
                                n_raw == raw_len,
                                1 <= n_raw <= 4096,
                                idxx <= 0xffff * 4096,
                            decreases state_mask,
                        {
                            let j = state_mask.trailing_zeros() % 16;
                            proof {
                                lemma_clear_lowest16(state_mask);
                            }
                            state_mask = state_mask & (state_mask - 1);
                            let conj_sym = ((j as u32) ^ ((sym_e2c_magic >> (((j as u32) * 2)
                                % 32)) & 3)) as usize;
                            let idxxx = idxx + util::g16x(raw_conj, rawx as usize, conj_sym)
                                as usize;
                            if read_prun(ptable, idxxx) == depth + 1 {
                                sub_prun(ptable, idxxx);
                            }
                        }
                    }
                    m = m + 1;
                }
            }
            index = index + 1;
        }
    }
    while depth < max_depth
        invariant
            ptable@.len() == old(ptable)@.len(),
            ptable@.len() <= 0x10_0000,
            depth <= 16,
            max_depth < 16,
            n_raw == raw_len,
            1 <= n_raw <= 4096,
            n_moves_v <= 18,
        decreases max_depth - depth,
    {
        advance_markers(ptable, depth);
        depth = depth + 1;
        let select = depth + 1;
        let sel_mask = !(((select as u64) % 16) * 0x1111_1111_1111_1111);
        let mut index: usize = 0;
        while index < blen && index < ptable.len()
            invariant
                ptable@.len() == old(ptable)@.len(),
                ptable@.len() <= 0x10_0000,
                depth <= 16,
                n_raw == raw_len,
                1 <= n_raw <= 4096,
                n_moves_v <= 18,
                index <= 0x10_0000,
            decreases ptable@.len() - index,
        {
            let mut bh = fill_64xmask4(util::g64(ptable, index) ^ sel_mask);
            while bh != 0
                invariant
                    ptable@.len() == old(ptable)@.len(),
                    depth <= 16,
                    n_raw == raw_len,
                    1 <= n_raw <= 4096,
                    n_moves_v <= 18,
                    index <= 0x10_0000,
                decreases bh,
            {
                let tz = bh.trailing_zeros() % 64;
                let i = ((tz / 4) as usize) + index * 16;
                proof {
                    lemma_clear_lowest(bh);
                }
                bh = bh & (bh - 1);
                let raw = i % n_raw;
                let sym = i / n_raw;
                let mut m: usize = 0;
                while m < n_moves_v
                    invariant
                        ptable@.len() == old(ptable)@.len(),
                        depth <= 16,
                        n_raw == raw_len,
                        1 <= n_raw <= 4096,
                        n_moves_v <= 18,
                    decreases n_moves_v - m,
                {
                    let mut symx = util::g16x(sym_move, sym, m);
                    let rawx = util::g16x(
                        raw_conj,
                        util::g16x(raw_move, raw, m) as usize,
                        (symx & sym_mask) as usize,
                    );
                    symx = symx >> ((sym_shift % 16) as u16);
                    let idx = mul_idx(symx as usize, n_raw) + (rawx as usize);
                    let prun = read_prun(ptable, idx);
                    if prun + 1 == depth {
                        sub_prun(ptable, i);
                        m = n_moves_v;
                    } else {
                        m = m + 1;
                    }
                }
            }
            index = index + 1;
        }
    }
}

pub(crate) proof fn lemma_clear_lowest(x: u64)
    by (bit_vector)
    requires
        x >= 1,
    ensures
        (x & ((x - 1) as u64)) < x,
{
}

pub(crate) proof fn lemma_clear_lowest16(x: u16)
    by (bit_vector)
    requires
        x >= 1,
    ensures
        (x & ((x - 1) as u16)) < x,
{
}


/// Elementwise equality of corner arrays.
fn eq8(a: &[u8; 8], b: &[u8; 8]) -> (r: bool)
    ensures
        r <==> (forall|i: int| 0 <= i < 8 ==> a@[i] == b@[i]),
{
    let mut i: usize = 0;
    while i < 8
        invariant
            i <= 8,
            forall|j: int| 0 <= j < i ==> a@[j] == b@[j],
        decreases 8 - i,
    {
        if a[i] != b[i] {
            return false;
        }
        i = i + 1;
    }
    true
}

/// Elementwise equality of edge arrays.
fn eq12(a: &[u8; 12], b: &[u8; 12]) -> (r: bool)
    ensures
        r <==> (forall|i: int| 0 <= i < 12 ==> a@[i] == b@[i]),
{
    let mut i: usize = 0;
    while i < 12
        invariant
            i <= 12,
            forall|j: int| 0 <= j < i ==> a@[j] == b@[j],
        decreases 12 - i,
    {
        if a[i] != b[i] {
            return false;
        }
        i = i + 1;
    }
    true
}

/// The tables the symmetry builder leaves alone.
pub open spec fn sym_build_frame(a: CubeTable, b: CubeTable) -> bool {
    &&& a.ud_slice_twist_prun == b.ud_slice_twist_prun
    &&& a.ud_slice_flip_prun == b.ud_slice_flip_prun
    &&& a.mc_perm_prun == b.mc_perm_prun
    &&& a.e_permccomb_prun == b.e_permccomb_prun
    &&& a.twist_flip_prun == b.twist_flip_prun
    &&& a.move_cube == b.move_cube
    &&& a.ud_slice_conj == b.ud_slice_conj
    &&& a.ud_slice_move == b.ud_slice_move
    &&& a.twist_move == b.twist_move
    &&& a.flip_move == b.flip_move
    &&& a.c_perm_move == b.c_perm_move
    &&& a.e_perm_move == b.e_perm_move
    &&& a.m_perm_move == b.m_perm_move
    &&& a.m_perm_conj == b.m_perm_conj
    &&& a.ccomb_p_move == b.ccomb_p_move
    &&& a.ccomb_p_conj == b.ccomb_p_conj
    &&& a.flip_s2r == b.flip_s2r
    &&& a.twist_s2r == b.twist_s2r
    &&& a.eperm_s2r == b.eperm_s2r
    &&& a.perm2combp == b.perm2combp
    &&& a.perm_inv_edge_sym == b.perm_inv_edge_sym
    &&& a.m_perm_inv == b.m_perm_inv
    &&& a.flip_r2s == b.flip_r2s
    &&& a.twist_r2s == b.twist_r2s
    &&& a.flip_s2rf == b.flip_s2rf
    &&& a.eperm_r2s == b.eperm_r2s
    &&& a.sym_state_twist == b.sym_state_twist
    &&& a.sym_state_flip == b.sym_state_flip
    &&& a.sym_state_perm == b.sym_state_perm
}

/// The tables the edge-permutation fold leaves alone.
pub open spec fn perm_fold_frame(a: CubeTable, b: CubeTable) -> bool {
    &&& a.ud_slice_twist_prun == b.ud_slice_twist_prun
    &&& a.ud_slice_flip_prun == b.ud_slice_flip_prun
    &&& a.mc_perm_prun == b.mc_perm_prun
    &&& a.e_permccomb_prun == b.e_permccomb_prun
    &&& a.twist_flip_prun == b.twist_flip_prun
    &&& a.cube_sym == b.cube_sym
    &&& a.move_cube == b.move_cube
    &&& a.ud_slice_conj == b.ud_slice_conj
    &&& a.ud_slice_move == b.ud_slice_move
    &&& a.twist_move == b.twist_move
    &&& a.flip_move == b.flip_move
    &&& a.c_perm_move == b.c_perm_move
    &&& a.e_perm_move == b.e_perm_move
    &&& a.m_perm_move == b.m_perm_move
    &&& a.m_perm_conj == b.m_perm_conj
    &&& a.ccomb_p_move == b.ccomb_p_move
    &&& a.ccomb_p_conj == b.ccomb_p_conj
    &&& a.move_cube_sym == b.move_cube_sym
    &&& a.first_move_sym == b.first_move_sym
    &&& a.sym_mult == b.sym_mult
    &&& a.sym_mult_inv == b.sym_mult_inv
    &&& a.sym_move == b.sym_move
    &&& a.sym_8move == b.sym_8move
    &&& a.sym_move_ud == b.sym_move_ud
    &&& a.flip_s2r == b.flip_s2r
    &&& a.twist_s2r == b.twist_s2r
    &&& a.flip_r2s == b.flip_r2s
    &&& a.twist_r2s == b.twist_r2s
    &&& a.flip_s2rf == b.flip_s2rf
    &&& a.sym_state_twist == b.sym_state_twist
    &&& a.sym_state_flip == b.sym_state_flip
}

/// The tables the edge-orientation fold leaves alone.
pub open spec fn flip_fold_frame(a: CubeTable, b: CubeTable) -> bool {
    &&& a.ud_slice_twist_prun == b.ud_slice_twist_prun
    &&& a.ud_slice_flip_prun == b.ud_slice_flip_prun
    &&& a.mc_perm_prun == b.mc_perm_prun
    &&& a.e_permccomb_prun == b.e_permccomb_prun
    &&& a.twist_flip_prun == b.twist_flip_prun
    &&& a.cube_sym == b.cube_sym
    &&& a.move_cube == b.move_cube
    &&& a.ud_slice_conj == b.ud_slice_conj
    &&& a.ud_slice_move == b.ud_slice_move
    &&& a.twist_move == b.twist_move
    &&& a.flip_move == b.flip_move
    &&& a.c_perm_move == b.c_perm_move
    &&& a.e_perm_move == b.e_perm_move
    &&& a.m_perm_move == b.m_perm_move
    &&& a.m_perm_conj == b.m_perm_conj
    &&& a.ccomb_p_move == b.ccomb_p_move
    &&& a.ccomb_p_conj == b.ccomb_p_conj
    &&& a.move_cube_sym == b.move_cube_sym
    &&& a.first_move_sym == b.first_move_sym
    &&& a.sym_mult == b.sym_mult
    &&& a.sym_mult_inv == b.sym_mult_inv
    &&& a.sym_move == b.sym_move
    &&& a.sym_8move == b.sym_8move
    &&& a.sym_move_ud == b.sym_move_ud
    &&& a.twist_s2r == b.twist_s2r
    &&& a.eperm_s2r == b.eperm_s2r
    &&& a.perm2combp == b.perm2combp
    &&& a.perm_inv_edge_sym == b.perm_inv_edge_sym
    &&& a.m_perm_inv == b.m_perm_inv
    &&& a.twist_r2s == b.twist_r2s
    &&& a.eperm_r2s == b.eperm_r2s
    &&& a.sym_state_twist == b.sym_state_twist
    &&& a.sym_state_perm == b.sym_state_perm
}

/// The tables the corner-orientation fold leaves alone.
pub open spec fn twist_fold_frame(a: CubeTable, b: CubeTable) -> bool {
    &&& a.ud_slice_twist_prun == b.ud_slice_twist_prun
    &&& a.ud_slice_flip_prun == b.ud_slice_flip_prun
    &&& a.mc_perm_prun == b.mc_perm_prun
    &&& a.e_permccomb_prun == b.e_permccomb_prun
    &&& a.twist_flip_prun == b.twist_flip_prun
    &&& a.cube_sym == b.cube_sym
    &&& a.move_cube == b.move_cube
    &&& a.ud_slice_conj == b.ud_slice_conj
    &&& a.ud_slice_move == b.ud_slice_move
    &&& a.twist_move == b.twist_move
    &&& a.flip_move == b.flip_move
    &&& a.c_perm_move == b.c_perm_move
    &&& a.e_perm_move == b.e_perm_move
    &&& a.m_perm_move == b.m_perm_move
    &&& a.m_perm_conj == b.m_perm_conj
    &&& a.ccomb_p_move == b.ccomb_p_move
    &&& a.ccomb_p_conj == b.ccomb_p_conj
    &&& a.move_cube_sym == b.move_cube_sym
    &&& a.first_move_sym == b.first_move_sym
    &&& a.sym_mult == b.sym_mult
    &&& a.sym_mult_inv == b.sym_mult_inv
    &&& a.sym_move == b.sym_move
    &&& a.sym_8move == b.sym_8move
    &&& a.sym_move_ud == b.sym_move_ud
    &&& a.flip_s2r == b.flip_s2r
    &&& a.eperm_s2r == b.eperm_s2r
    &&& a.perm2combp == b.perm2combp
    &&& a.perm_inv_edge_sym == b.perm_inv_edge_sym
    &&& a.m_perm_inv == b.m_perm_inv
    &&& a.flip_r2s == b.flip_r2s
    &&& a.flip_s2rf == b.flip_s2rf
    &&& a.eperm_r2s == b.eperm_r2s
    &&& a.sym_state_flip == b.sym_state_flip
    &&& a.sym_state_perm == b.sym_state_perm
}

/// The tables the move builder leaves alone.
pub open spec fn move_build_frame(a: CubeTable, b: CubeTable) -> bool {
    &&& a.ud_slice_twist_prun == b.ud_slice_twist_prun
    &&& a.ud_slice_flip_prun == b.ud_slice_flip_prun
    &&& a.mc_perm_prun == b.mc_perm_prun
    &&& a.e_permccomb_prun == b.e_permccomb_prun
    &&& a.twist_flip_prun == b.twist_flip_prun
    &&& a.cube_sym == b.cube_sym
    &&& a.ud_slice_conj == b.ud_slice_conj
    &&& a.ud_slice_move == b.ud_slice_move
    &&& a.twist_move == b.twist_move
    &&& a.flip_move == b.flip_move
    &&& a.c_perm_move == b.c_perm_move
    &&& a.e_perm_move == b.e_perm_move
    &&& a.m_perm_move == b.m_perm_move
    &&& a.m_perm_conj == b.m_perm_conj
    &&& a.ccomb_p_move == b.ccomb_p_move
    &&& a.ccomb_p_conj == b.ccomb_p_conj
    &&& a.move_cube_sym == b.move_cube_sym
    &&& a.first_move_sym == b.first_move_sym
    &&& a.sym_mult == b.sym_mult
    &&& a.sym_mult_inv == b.sym_mult_inv
    &&& a.sym_move == b.sym_move
    &&& a.sym_8move == b.sym_8move
    &&& a.sym_move_ud == b.sym_move_ud
    &&& a.flip_s2r == b.flip_s2r
    &&& a.twist_s2r == b.twist_s2r
    &&& a.eperm_s2r == b.eperm_s2r
    &&& a.perm2combp == b.perm2combp
    &&& a.perm_inv_edge_sym == b.perm_inv_edge_sym
    &&& a.m_perm_inv == b.m_perm_inv
    &&& a.flip_r2s == b.flip_r2s
    &&& a.twist_r2s == b.twist_r2s
    &&& a.flip_s2rf == b.flip_s2rf
    &&& a.eperm_r2s == b.eperm_r2s
    &&& a.sym_state_twist == b.sym_state_twist
    &&& a.sym_state_flip == b.sym_state_flip
    &&& a.sym_state_perm == b.sym_state_perm
}

/// The tables the orientation-pair pruning builder leaves alone.
pub open spec fn tf_prun_frame(a: CubeTable, b: CubeTable) -> bool {
    &&& a.ud_slice_twist_prun == b.ud_slice_twist_prun
    &&& a.ud_slice_flip_prun == b.ud_slice_flip_prun
    &&& a.mc_perm_prun == b.mc_perm_prun
    &&& a.e_permccomb_prun == b.e_permccomb_prun
    &&& a.cube_sym == b.cube_sym
    &&& a.move_cube == b.move_cube
    &&& a.ud_slice_conj == b.ud_slice_conj
    &&& a.ud_slice_move == b.ud_slice_move
    &&& a.twist_move == b.twist_move
    &&& a.flip_move == b.flip_move
    &&& a.c_perm_move == b.c_perm_move
    &&& a.e_perm_move == b.e_perm_move
    &&& a.m_perm_move == b.m_perm_move
    &&& a.m_perm_conj == b.m_perm_conj
    &&& a.ccomb_p_move == b.ccomb_p_move
    &&& a.ccomb_p_conj == b.ccomb_p_conj
    &&& a.move_cube_sym == b.move_cube_sym
    &&& a.first_move_sym == b.first_move_sym
    &&& a.sym_mult == b.sym_mult
    &&& a.sym_mult_inv == b.sym_mult_inv
    &&& a.sym_move == b.sym_move
    &&& a.sym_8move == b.sym_8move
    &&& a.sym_move_ud == b.sym_move_ud
    &&& a.flip_s2r == b.flip_s2r
    &&& a.twist_s2r == b.twist_s2r
    &&& a.eperm_s2r == b.eperm_s2r
    &&& a.perm2combp == b.perm2combp
    &&& a.perm_inv_edge_sym == b.perm_inv_edge_sym
    &&& a.m_perm_inv == b.m_perm_inv
    &&& a.flip_r2s == b.flip_r2s
    &&& a.twist_r2s == b.twist_r2s
    &&& a.flip_s2rf == b.flip_s2rf
    &&& a.eperm_r2s == b.eperm_r2s
    &&& a.sym_state_twist == b.sym_state_twist
    &&& a.sym_state_flip == b.sym_state_flip
    &&& a.sym_state_perm == b.sym_state_perm
}

/// The symmetry builder keeps the shapes of the tables it fills.
pub open spec fn sym_build_lens(a: CubeTable, b: CubeTable) -> bool {
    &&& b.cube_sym@.len() == a.cube_sym@.len()
    &&& b.sym_8move@.len() == a.sym_8move@.len()
    &&& b.move_cube_sym@.len() == a.move_cube_sym@.len()
    &&& b.first_move_sym@.len() == a.first_move_sym@.len()
    &&& b.sym_mult@.len() == a.sym_mult@.len()
    &&& forall|k: int| 0 <= k < a.sym_mult@.len() ==> b.sym_mult@[k]@.len() == a.sym_mult@[k]@.len()
    &&& b.sym_mult_inv@.len() == a.sym_mult_inv@.len()
    &&& forall|k: int|
        0 <= k < a.sym_mult_inv@.len() ==> b.sym_mult_inv@[k]@.len() == a.sym_mult_inv@[k]@.len()
    &&& b.sym_move@.len() == a.sym_move@.len()
    &&& forall|k: int| 0 <= k < a.sym_move@.len() ==> b.sym_move@[k]@.len() == a.sym_move@[k]@.len()
    &&& b.sym_move_ud@.len() == a.sym_move_ud@.len()
    &&& forall|k: int|
        0 <= k < a.sym_move_ud@.len() ==> b.sym_move_ud@[k]@.len() == a.sym_move_ud@[k]@.len()
}

/// The edge-permutation fold keeps the shapes of the tables it fills.
pub open spec fn perm_fold_lens(a: CubeTable, b: CubeTable) -> bool {
    &&& b.sym_state_perm@.len() == a.sym_state_perm@.len()
    &&& b.eperm_r2s@.len() == a.eperm_r2s@.len()
    &&& b.eperm_s2r@.len() == a.eperm_s2r@.len()
    &&& b.perm2combp@.len() == a.perm2combp@.len()
    &&& b.perm_inv_edge_sym@.len() == a.perm_inv_edge_sym@.len()
    &&& b.m_perm_inv@.len() == a.m_perm_inv@.len()
}

/// The edge-orientation fold keeps the shapes of the tables it fills.
pub open spec fn flip_fold_lens(a: CubeTable, b: CubeTable) -> bool {
    &&& b.flip_s2rf@.len() == a.flip_s2rf@.len()
    &&& b.sym_state_flip@.len() == a.sym_state_flip@.len()
    &&& b.flip_r2s@.len() == a.flip_r2s@.len()
    &&& b.flip_s2r@.len() == a.flip_s2r@.len()
}

/// The corner-orientation fold keeps the shapes of the tables it fills.
pub open spec fn twist_fold_lens(a: CubeTable, b: CubeTable) -> bool {
    &&& b.twist_r2s@.len() == a.twist_r2s@.len()
    &&& b.twist_s2r@.len() == a.twist_s2r@.len()
    &&& b.sym_state_twist@.len() == a.sym_state_twist@.len()
}

/// The twist coordinate each clockwise generator is seeded with.
pub open spec fn move_seed_twist(a: int) -> int {
    if a == 1 {
        1494int
    } else if a == 2 {
        1236
    } else if a == 4 {
        412
    } else if a == 5 {
        137
    } else {
        0
    }
}

/// The flip coordinate each clockwise generator is seeded with.
pub open spec fn move_seed_flip(a: int) -> int {
    if a == 2 {
        550int
    } else if a == 5 {
        137
    } else {
        0
    }
}

/// The three move-table entries of one face are a seeded generator and
/// its square and cube.
pub open spec fn move_axis_built(mc: Seq<CubieCube>, a: int) -> bool {
    let cw = mc[3 * a];
    let two = mc[3 * a + 1];
    let ccw = mc[3 * a + 2];
    &&& cubie_wf(cw) && cubie_wf(two) && cubie_wf(ccw)
    &&& super::cube::twist_value(cw.corners, 7) == move_seed_twist(a)
    &&& super::cube::flip_value(cw.edges, 11) == move_seed_flip(a)
    &&& forall|i: int|
        0 <= i < 8 ==> two.corners.raw[i] as int == super::cube::corner_mul_entry(
            cw.corners,
            cw.corners,
            i,
        )
    &&& forall|i: int|
        0 <= i < 12 ==> two.edges.raw[i] as int == super::cube::edge_mul_entry(
            cw.edges,
            cw.edges,
            i,
        )
    &&& forall|i: int|
        0 <= i < 8 ==> ccw.corners.raw[i] as int == super::cube::corner_mul_entry(
            two.corners,
            cw.corners,
            i,
        )
    &&& forall|i: int|
        0 <= i < 12 ==> ccw.edges.raw[i] as int == super::cube::edge_mul_entry(
            two.edges,
            cw.edges,
            i,
        )
}

impl CubeTable {
    /// Seeds the six clockwise generators from their coordinates and
    /// derives the other twelve powers by composition.
    pub fn init_move(&mut self)
        ensures
            final (self).move_cube@.len() == old(self).move_cube@.len(),
            move_build_frame(*old(self), *final (self)),
            old(self).move_cube@.len() == 18 ==> move_axis_built(final (self).move_cube@, 0)
                && move_axis_built(final (self).move_cube@, 1) && move_axis_built(
                final (self).move_cube@,
                2,
            ) && move_axis_built(final (self).move_cube@, 3) && move_axis_built(
                final (self).move_cube@,
                4,
            ) && move_axis_built(final (self).move_cube@, 5),
    {
        let seeds: [[u32; 4]; 6] = [
            [15120, 0, 119750400, 0],
            [21021, 1494, 323403417, 0],
            [8064, 1236, 29441808, 550],
            [9, 0, 5880, 0],
            [1230, 412, 2949660, 0],
            [224, 137, 328552, 137],
        ];
        let mut f: usize = 0;
        while f < 6
            invariant
                f <= 6,
                self.move_cube@.len() == old(self).move_cube@.len(),
                move_build_frame(*old(self), *self),
                forall|j: int|
                    0 <= j < 6 ==> (seeds@[j][1] as int == move_seed_twist(j) && seeds@[j][3]
                        as int == move_seed_flip(j)),
                old(self).move_cube@.len() == 18 ==> forall|a: int|
                    0 <= a < f as int ==> #[trigger] move_axis_built(self.move_cube@, a),
            decreases 6 - f,
        {
            let ghost ghost_pre = self.move_cube@;
            let cw = CubieCube::from_coords(seeds[f][0], seeds[f][1], seeds[f][2], seeds[f][3]);
            let two = CubieCube {
                corners: cw.corners.mult(cw.corners),
                edges: cw.edges.mult(&cw.edges),
            };
            let ccw = CubieCube {
                corners: two.corners.mult(cw.corners),
                edges: two.edges.mult(&cw.edges),
            };
            put_cubie(&mut self.move_cube, 3 * f, cw);
            put_cubie(&mut self.move_cube, 3 * f + 1, two);
            put_cubie(&mut self.move_cube, 3 * f + 2, ccw);
            proof {
                if old(self).move_cube@.len() == 18 {
                    assert(self.move_cube@[3 * (f as int)] == cw);
                    assert(self.move_cube@[3 * (f as int) + 1] == two);
                    assert(self.move_cube@[3 * (f as int) + 2] == ccw);
                    assert(move_axis_built(self.move_cube@, f as int));
                    assert forall|a: int|
                        0 <= a < f as int + 1 implies #[trigger] move_axis_built(
                        self.move_cube@,
                        a,
                    ) by {
                        if a < f as int {
                            assert(move_axis_built(ghost_pre, a));
                            assert(self.move_cube@[3 * a] == ghost_pre[3 * a]);
                            assert(self.move_cube@[3 * a + 1] == ghost_pre[3 * a + 1]);
                            assert(self.move_cube@[3 * a + 2] == ghost_pre[3 * a + 2]);
                        }
                    }
                }
            }
            f = f + 1;
        }
    }

    /// Builds the 16 operational symmetries from the three base
    /// symmetries, then the symmetry multiplication tables and the
    /// per-move symmetry maps.
    pub fn init_sym(&mut self)
        ensures
            sym_build_frame(*old(self), *final (self)),
            sym_build_lens(*old(self), *final (self)),
    {
        let f2 = CubieCube::from_coords(28783, 0, 259268407, 0);
        let u4 = CubieCube::from_coords(15138, 0, 119765538, 7);
        let mut lr2 = CubieCube::from_coords(5167, 0, 83473207, 0);
        let mut i: usize = 0;
        while i < 8
            invariant
                i <= 8,
                cubie_wf(lr2),
                sym_build_frame(*old(self), *self),
                sym_build_lens(*old(self), *self),
            decreases 8 - i,
        {
            let v = lr2.corners.raw[i];
            proof {
                lemma_lr2_twist_bound(v);
            }
            lr2.corners.raw[i] = (v % 8) | 0x18;
            i = i + 1;
        }
        let mut c = CubieCube::default();
        let mut d = CubieCube::default();
        let mut k: usize = 0;
        while k < 16
            invariant
                k <= 16,
                cubie_wf(c),
                cubie_wf(d),
                cubie_wf(lr2),
                cubie_wf(u4),
                cubie_wf(f2),
                sym_build_frame(*old(self), *self),
                sym_build_lens(*old(self), *self),
            decreases 16 - k,
        {
            put_cubie(&mut self.cube_sym, k, c);
            c.corn_mult_full(&u4, &mut d);
            c.edge_mult(&u4, &mut d);
            let t = c;
            c = d;
            d = t;
            if k % 4 == 3 {
                c.corn_mult_full(&lr2, &mut d);
                c.edge_mult(&lr2, &mut d);
                let t2 = c;
                c = d;
                d = t2;
            }
            if k % 8 == 7 {
                c.corn_mult_full(&f2, &mut d);
                c.edge_mult(&f2, &mut d);
                let t3 = c;
                c = d;
                d = t3;
            }
            k = k + 1;
        }
        let mut i2: usize = 0;
        while i2 < 16
            invariant
                i2 <= 16,
                cubie_wf(c),
                sym_build_frame(*old(self), *self),
                sym_build_lens(*old(self), *self),
            decreases 16 - i2,
        {
            let mut j: usize = 0;
            while j < 16
                invariant
                    j <= 16,
                    i2 < 16,
                    cubie_wf(c),
                    sym_build_frame(*old(self), *self),
                    sym_build_lens(*old(self), *self),
                decreases 16 - j,
            {
                let si = self.sym_cube(i2);
                let sj = self.sym_cube(j);
                let mut cc = CubieCube::default();
                si.corn_mult_full(&sj, &mut cc);
                let mut kk: usize = 0;
                while kk < 16
                    invariant
                        kk <= 16,
                        i2 < 16,
                        j < 16,
                        sym_build_frame(*old(self), *self),
                        sym_build_lens(*old(self), *self),
                    decreases 16 - kk,
                {
                    let sk = self.sym_cube(kk);
                    if eq8(&sk.corners.raw, &cc.corners.raw) {
                        util::p8x(&mut self.sym_mult, i2, j, ((i2 ^ kk) % 256) as u8);
                        util::p8x(&mut self.sym_mult_inv, kk, j, i2 as u8);
                    }
                    kk = kk + 1;
                }
                j = j + 1;
            }
            i2 = i2 + 1;
        }
        let mut j2: usize = 0;
        while j2 < 18
            invariant
                j2 <= 18,
                sym_build_frame(*old(self), *self),
                sym_build_lens(*old(self), *self),
            decreases 18 - j2,
        {
            let mut sidx: usize = 0;
            while sidx < 16
                invariant
                    sidx <= 16,
                    j2 < 18,
                    sym_build_frame(*old(self), *self),
                    sym_build_lens(*old(self), *self),
                decreases 16 - sidx,
            {
                let mv = self.move_cubie(j2);
                let sinv = util::g8x(&self.sym_mult_inv, 0, sidx);
                let mut cc = CubieCube::default();
                mv.corn_conjugate(self, sinv as u32, &mut cc);
                let mut m: usize = 0;
                while m < 18
                    invariant
                        m <= 18,
                        j2 < 18,
                        sidx < 16,
                        sym_build_frame(*old(self), *self),
                        sym_build_lens(*old(self), *self),
                    decreases 18 - m,
                {
                    let mc = self.move_cubie(m);
                    if eq8(&mc.corners.raw, &cc.corners.raw) {
                        util::p8x(&mut self.sym_move, sidx, j2, m as u8);
                        let a = util::std2ud(j2) as usize;
                        let b = util::std2ud(m);
                        util::p8x(&mut self.sym_move_ud, sidx, a, b);
                        m = 18;
                    } else {
                        m = m + 1;
                    }
                }
                if sidx % 2 == 0 {
                    let sm = util::g8x(&self.sym_move, sidx, j2);
                    util::p8(&mut self.sym_8move, (j2 * 8 + sidx / 2) % 144, sm);
                }
                sidx = sidx + 1;
            }
            j2 = j2 + 1;
        }
        let mut i3: usize = 0;
        while i3 < 18
            invariant
                i3 <= 18,
                sym_build_frame(*old(self), *self),
                sym_build_lens(*old(self), *self),
            decreases 18 - i3,
        {
            let sym = self.self_symmetry_of_move(i3);
            util::p64(&mut self.move_cube_sym, i3, sym);
            let mut j3: usize = i3;
            let mut st: usize = 0;
            while st < 48
                invariant
                    st <= 48,
                    i3 < 18,
                    j3 < 18,
                    sym_build_frame(*old(self), *self),
                    sym_build_lens(*old(self), *self),
                decreases 48 - st,
            {
                if (util::g8x(&self.sym_move, st % 16, j3) as usize) < i3 {
                    let fv = util::g32(&self.first_move_sym, st);
                    util::p32(&mut self.first_move_sym, st, fv | (1u32 << (i3 as u32)));
                }
                if st % 16 == 15 {
                    j3 = super::cube::urf_move(2, j3) as usize;
                }
                st = st + 1;
            }
            i3 = i3 + 1;
        }
    }

    /// The self-symmetry bitmask of one generator.
    fn self_symmetry_of_move(&self, i: usize) -> (r: u64) {
        let c = self.move_cubie(i);
        self.self_symmetry(&c)
    }

    /// The bitmask of re-orientations and symmetries that leave this
    /// state unchanged.
    pub fn self_symmetry(&self, cube: &CubieCube) -> (r: u64)
        requires
            cubie_wf(*cube),
    {
        let mut c = *cube;
        let mut d = CubieCube::default();
        let cperm = self.get_c_perm_sym_of(&c) / 16;
        let mut sym: u64 = 0;
        let mut urf_inv: usize = 0;
        while urf_inv < 6
            invariant
                urf_inv <= 6,
                cubie_wf(c),
                cubie_wf(d),
                cubie_wf(*cube),
            decreases 6 - urf_inv,
        {
            let cpermx = self.get_c_perm_sym_of(&c) / 16;
            if cperm == cpermx {
                let mut i: usize = 0;
                while i < 16
                    invariant
                        i <= 16,
                        urf_inv < 6,
                        cubie_wf(c),
                        cubie_wf(d),
                        cubie_wf(*cube),
                    decreases 16 - i,
                {
                    let sinv = util::g8x(&self.sym_mult_inv, 0, i);
                    c.corn_conjugate(self, sinv as u32, &mut d);
                    if eq8(&d.corners.raw, &cube.corners.raw) {
                        c.edge_conjugate(self, sinv as u32, &mut d);
                        if eq12(&d.edges.raw, &cube.edges.raw) {
                            let bit = (urf_inv * 16 + i) % 64;
                            sym = sym | (1u64 << (bit as u64));
                        }
                    }
                    i = i + 1;
                }
            }
            c.urf_conjugate();
            if urf_inv % 3 == 2 {
                c = c.invert();
            }
            urf_inv = urf_inv + 1;
        }
        sym
    }

    /// The symmetry-folded corner-permutation coordinate of a state.
    pub fn get_c_perm_sym_of(&self, c: &CubieCube) -> (r: u32) {
        let p = c.get_c_perm();
        esym2csym(util::g16(&self.eperm_r2s, p as usize) as u32)
    }

    /// The symmetry-folded edge-permutation coordinate of a state.
    pub fn get_e_perm_sym_of(&self, c: &CubieCube) -> (r: u16) {
        let p = c.get_e_perm();
        util::g16(&self.eperm_r2s, p as usize)
    }

    /// The symmetry-folded edge-orientation coordinate of a state.
    pub fn get_flip_sym_of(&self, c: &CubieCube) -> (r: u16) {
        util::g16(&self.flip_r2s, c.get_flip() as usize)
    }

    /// The symmetry-folded corner-orientation coordinate of a state.
    pub fn get_twist_sym_of(&self, c: &CubieCube) -> (r: u16)
        requires
            cubie_corners_wf(c.corners),
    {
        util::g16(&self.twist_r2s, c.get_twist() as usize)
    }

    /// Folds the raw edge-permutation coordinates into symmetry classes
    /// and derives the phase-2 companion tables.
    pub fn init_perm_sym_2_raw(&mut self)
        ensures
            perm_fold_frame(*old(self), *final (self)),
            perm_fold_lens(*old(self), *final (self)),
    {
        let mut c = CubieCube::default();
        let mut d = CubieCube::default();
        let mut count: usize = 0;
        let mut i: usize = 0;
        while i < N_PERM
            invariant
                i <= N_PERM,
                count <= N_PERM,
                cubie_wf(c),
                cubie_wf(d),
                perm_fold_frame(*old(self), *self),
                perm_fold_lens(*old(self), *self),
            decreases N_PERM - i,
        {
            if util::g16(&self.eperm_r2s, i) == 0 {
                c.set_e_perm(i as u32);
                let mut sidx: usize = 0;
                while sidx < 16
                    invariant
                        sidx <= 16,
                        i < N_PERM,
                        count <= N_PERM,
                        cubie_wf(c),
                        cubie_wf(d),
                        perm_fold_frame(*old(self), *self),
                        perm_fold_lens(*old(self), *self),
                    decreases 16 - sidx,
                {
                    c.edge_conjugate(self, sidx as u32, &mut d);
                    let idx = d.get_e_perm();
                    if idx == i as u32 {
                        let st = util::g16(&self.sym_state_perm, count % N_PERM_SYM);
                        util::p16(
                            &mut self.sym_state_perm,
                            count % N_PERM_SYM,
                            st | ((1u16 << ((sidx % 16) as u16))),
                        );
                    }
                    let sym_idx = ((count % 4096) * 16 + sidx) as u16;
                    util::p16(&mut self.eperm_r2s, idx as usize, sym_idx);
                    sidx = sidx + 1;
                }
                util::p16(&mut self.eperm_s2r, count % N_PERM_SYM, i as u16);
                if count < N_PERM {
                    count = count + 1;
                }
            }
            i = i + 1;
        }
        let mut cc = CubieCube::default();
        let mut k: usize = 0;
        while k < N_PERM_SYM
            invariant
                k <= N_PERM_SYM,
                cubie_wf(cc),
                perm_fold_frame(*old(self), *self),
                perm_fold_lens(*old(self), *self),
            decreases N_PERM_SYM - k,
        {
            let s2r = util::g16(&self.eperm_s2r, k);
            cc.set_e_perm(s2r as u32);
            let mut ev: Vec<u8> = Vec::new();
            let mut t: usize = 0;
            while t < 12
                invariant
                    t <= 12,
                    ev@.len() == t,
                    perm_fold_frame(*old(self), *self),
                    perm_fold_lens(*old(self), *self),
                decreases 12 - t,
            {
                ev.push(cc.edges.raw[t]);
                t = t + 1;
            }
            let comb = util::get_comb(&ev, 0, true);
            let par = util::get_parity(s2r as u32, 8);
            util::p8(&mut self.perm2combp, k, ((comb + par * 70) % 256) as u8);
            cc = cc.invert();
            let inv_sym = self.get_e_perm_sym_of(&cc);
            util::p16(&mut self.perm_inv_edge_sym, k, inv_sym);
            k = k + 1;
        }
        let mut m: usize = 0;
        while m < N_MPERM
            invariant
                m <= N_MPERM,
                cubie_wf(cc),
                perm_fold_frame(*old(self), *self),
                perm_fold_lens(*old(self), *self),
            decreases N_MPERM - m,
        {
            cc.set_m_perm(m as u32);
            cc = cc.invert();
            let mi = cc.get_m_perm();
            util::p8(&mut self.m_perm_inv, m, (mi % 256) as u8);
            m = m + 1;
        }
    }

    /// Folds the raw edge-orientation coordinates into symmetry classes.
    pub fn init_flip_sym_2_raw(&mut self)
        ensures
            flip_fold_frame(*old(self), *final (self)),
            flip_fold_lens(*old(self), *final (self)),
    {
        let mut c = CubieCube::default();
        let mut d = CubieCube::default();
        let mut count: usize = 0;
        let mut i: usize = 0;
        while i < N_FLIP
            invariant
                i <= N_FLIP,
                count <= N_FLIP,
                cubie_wf(c),
                cubie_wf(d),
                flip_fold_frame(*old(self), *self),
                flip_fold_lens(*old(self), *self),
            decreases N_FLIP - i,
        {
            if util::g16(&self.flip_r2s, i) == 0 {
                c.set_flip(i as u32);
                let mut s1: usize = 0;
                while s1 < 8
                    invariant
                        s1 <= 8,
                        i < N_FLIP,
                        count <= N_FLIP,
                        cubie_wf(c),
                        cubie_wf(d),
                        flip_fold_frame(*old(self), *self),
                        flip_fold_lens(*old(self), *self),
                    decreases 8 - s1,
                {
                    let sidx = s1 * 2;
                    c.edge_conjugate(self, sidx as u32, &mut d);
                    let idx = d.get_flip();
                    util::p16(
                        &mut self.flip_s2rf,
                        ((count % N_FLIP_SYM) * 8 + s1) % (N_FLIP_SYM * 8),
                        (idx % 65536) as u16,
                    );
                    if idx == i as u32 {
                        let st = util::g16(&self.sym_state_flip, count % N_FLIP_SYM);
                        util::p16(
                            &mut self.sym_state_flip,
                            count % N_FLIP_SYM,
                            st | (1u16 << ((s1 % 16) as u16)),
                        );
                    }
                    let sym_idx = (((count % 4096) * 16 + sidx) / 2) as u16;
                    util::p16(&mut self.flip_r2s, idx as usize, sym_idx);
                    s1 = s1 + 1;
                }
                util::p16(&mut self.flip_s2r, count % N_FLIP_SYM, i as u16);
                if count < N_FLIP {
                    count = count + 1;
                }
            }
            i = i + 1;
        }
    }

    /// Folds the raw corner-orientation coordinates into symmetry
    /// classes.
    pub fn init_twist_sym_2_raw(&mut self)
        ensures
            twist_fold_frame(*old(self), *final (self)),
            twist_fold_lens(*old(self), *final (self)),
    {
        let mut c = CubieCube::default();
        let mut d = CubieCube::default();
        let mut count: usize = 0;
        let mut i: usize = 0;
        while i < N_TWIST
            invariant
                i <= N_TWIST,
                count <= N_TWIST,
                cubie_wf(c),
                cubie_wf(d),
                twist_fold_frame(*old(self), *self),
                twist_fold_lens(*old(self), *self),
            decreases N_TWIST - i,
        {
            if util::g16(&self.twist_r2s, i) == 0 {
                c.set_twist(i as u32);
                let mut s1: usize = 0;
                while s1 < 8
                    invariant
                        s1 <= 8,
                        i < N_TWIST,
                        count <= N_TWIST,
                        cubie_wf(c),
                        cubie_wf(d),
                        twist_fold_frame(*old(self), *self),
                        twist_fold_lens(*old(self), *self),
                    decreases 8 - s1,
                {
                    let sidx = s1 * 2;
                    c.corn_conjugate(self, sidx as u32, &mut d);
                    let idx = d.get_twist();
                    if idx == i as u32 {
                        let st = util::g16(&self.sym_state_twist, count % N_TWIST_SYM);
                        util::p16(
                            &mut self.sym_state_twist,
                            count % N_TWIST_SYM,
                            st | (1u16 << ((s1 % 16) as u16)),
                        );
                    }
                    let sym_idx = (((count % 4096) * 16 + sidx) / 2) as u16;
                    util::p16(&mut self.twist_r2s, idx as usize, sym_idx);
                    s1 = s1 + 1;
                }
                util::p16(&mut self.twist_s2r, count % N_TWIST_SYM, i as u16);
                if count < N_TWIST {
                    count = count + 1;
                }
            }
            i = i + 1;
        }
    }

    /// The move table of the symmetry-folded corner-orientation
    /// coordinate.
    pub fn init_twist_move(&mut self) {
        let mut c = CubieCube::default();
        let mut d = CubieCube::default();
        let mut i: usize = 0;
        while i < N_TWIST_SYM
            invariant
                i <= N_TWIST_SYM,
                cubie_wf(c),
                cubie_wf(d),
            decreases N_TWIST_SYM - i,
        {
            let s2r = util::g16(&self.twist_s2r, i);
            c.set_twist((s2r as u32) % 2187);
            let mut j: usize = 0;
            while j < N_MOVES
                invariant
                    j <= N_MOVES,
                    i < N_TWIST_SYM,
                    cubie_wf(c),
                    cubie_wf(d),
                decreases N_MOVES - j,
            {
                let mv = self.move_cubie(j);
                c.corn_mult(&mv, &mut d);
                let v = self.get_twist_sym_of(&d);
                util::p16x(&mut self.twist_move, i, j, v);
                j = j + 1;
            }
            i = i + 1;
        }
    }

    /// The move table of the symmetry-folded edge-orientation
    /// coordinate.
    pub fn init_flip_move(&mut self) {
        let mut c = CubieCube::default();
        let mut d = CubieCube::default();
        let mut i: usize = 0;
        while i < N_FLIP_SYM
            invariant
                i <= N_FLIP_SYM,
                cubie_wf(c),
                cubie_wf(d),
            decreases N_FLIP_SYM - i,
        {
            let s2r = util::g16(&self.flip_s2r, i);
            c.set_flip((s2r as u32) % 2048);
            let mut j: usize = 0;
            while j < N_MOVES
                invariant
                    j <= N_MOVES,
                    i < N_FLIP_SYM,
                    cubie_wf(c),
                    cubie_wf(d),
                decreases N_MOVES - j,
            {
                let mv = self.move_cubie(j);
                c.edge_mult(&mv, &mut d);
                let v = self.get_flip_sym_of(&d);
                util::p16x(&mut self.flip_move, i, j, v);
                j = j + 1;
            }
            i = i + 1;
        }
    }

    /// The phase-2 move table of the symmetry-folded corner
    /// permutation.
    pub fn init_cperm_move(&mut self) {
        let mut c = CubieCube::default();
        let mut d = CubieCube::default();
        let mut i: usize = 0;
        while i < N_PERM_SYM
            invariant
                i <= N_PERM_SYM,
                cubie_wf(c),
                cubie_wf(d),
            decreases N_PERM_SYM - i,
        {
            let s2r = util::g16(&self.eperm_s2r, i);
            c.set_c_perm(s2r as u32);
            let mut j: usize = 0;
            while j < N_MOVES2
                invariant
                    j <= N_MOVES2,
                    i < N_PERM_SYM,
                    cubie_wf(c),
                    cubie_wf(d),
                decreases N_MOVES2 - j,
            {
                let mv = self.move_cubie(util::ud2std(j) as usize);
                c.corn_mult(&mv, &mut d);
                let v = self.get_c_perm_sym_of(&d);
                util::p16x(&mut self.c_perm_move, i, j, (v % 65536) as u16);
                j = j + 1;
            }
            i = i + 1;
        }
    }

    /// The phase-2 move table of the symmetry-folded edge permutation.
    pub fn init_eperm_move(&mut self) {
        let mut c = CubieCube::default();
        let mut d = CubieCube::default();
        let mut i: usize = 0;
        while i < N_PERM_SYM
            invariant
                i <= N_PERM_SYM,
                cubie_wf(c),
                cubie_wf(d),
            decreases N_PERM_SYM - i,
        {
            let s2r = util::g16(&self.eperm_s2r, i);
            c.set_e_perm(s2r as u32);
            let mut j: usize = 0;
            while j < N_MOVES2
                invariant
                    j <= N_MOVES2,
                    i < N_PERM_SYM,
                    cubie_wf(c),
                    cubie_wf(d),
                decreases N_MOVES2 - j,
            {
                let mv = self.move_cubie(util::ud2std(j) as usize);
                c.edge_mult(&mv, &mut d);
                let v = self.get_e_perm_sym_of(&d);
                util::p16x(&mut self.e_perm_move, i, j, v);
                j = j + 1;
            }
            i = i + 1;
        }
    }

    /// The phase-2 move and conjugation tables of the middle-slice
    /// permutation.
    pub fn init_mperm_move_conj(&mut self) {
        let mut c = CubieCube::default();
        let mut d = CubieCube::default();
        let mut i: usize = 0;
        while i < N_MPERM
            invariant
                i <= N_MPERM,
                cubie_wf(c),
                cubie_wf(d),
            decreases N_MPERM - i,
        {
            c.set_m_perm(i as u32);
            let mut j: usize = 0;
            while j < N_MOVES2
                invariant
                    j <= N_MOVES2,
                    i < N_MPERM,
                    cubie_wf(c),
                    cubie_wf(d),
                decreases N_MOVES2 - j,
            {
                let mv = self.move_cubie(util::ud2std(j) as usize);
                c.edge_mult(&mv, &mut d);
                let v = d.get_m_perm();
                util::p16x(&mut self.m_perm_move, i, j, (v % 65536) as u16);
                j = j + 1;
            }
            let mut j2: usize = 0;
            while j2 < 16
                invariant
                    j2 <= 16,
                    i < N_MPERM,
                    cubie_wf(c),
                    cubie_wf(d),
                decreases 16 - j2,
            {
                let sinv = util::g8x(&self.sym_mult_inv, 0, j2);
                c.edge_conjugate(self, sinv as u32, &mut d);
                let v = d.get_m_perm();
                util::p16x(&mut self.m_perm_conj, i, j2, (v % 65536) as u16);
                j2 = j2 + 1;
            }
            i = i + 1;
        }
    }

    /// The phase-2 move and conjugation tables of the parity-augmented
    /// corner combination.
    pub fn init_combpmove_conj(&mut self) {
        let mut c = CubieCube::default();
        let mut d = CubieCube::default();
        let mut i: usize = 0;
        while i < N_COMB
            invariant
                i <= N_COMB,
                cubie_wf(c),
                cubie_wf(d),
            decreases N_COMB - i,
        {
            c.set_c_comb((i as u32) % 70);
            let mut j: usize = 0;
            while j < N_MOVES2
                invariant
                    j <= N_MOVES2,
                    i < N_COMB,
                    cubie_wf(c),
                    cubie_wf(d),
                decreases N_MOVES2 - j,
            {
                let mv = self.move_cubie(util::ud2std(j) as usize);
                c.corn_mult(&mv, &mut d);
                let par = ((P2_PARITY_MOVE >> j) % 2) as u32;
                let v = d.get_c_comb() + 70 * ((par + ((i / 70) as u32) % 2) % 2);
                util::p16x(&mut self.ccomb_p_move, i, j, (v % 65536) as u16);
                j = j + 1;
            }
            let mut j2: usize = 0;
            while j2 < 16
                invariant
                    j2 <= 16,
                    i < N_COMB,
                    cubie_wf(c),
                    cubie_wf(d),
                decreases 16 - j2,
            {
                let sinv = util::g8x(&self.sym_mult_inv, 0, j2);
                c.corn_conjugate(self, sinv as u32, &mut d);
                let v = d.get_c_comb() + 70 * (((i / 70) as u32) % 2);
                util::p16x(&mut self.ccomb_p_conj, i, j2, (v % 65536) as u16);
                j2 = j2 + 1;
            }
            i = i + 1;
        }
    }

    /// The move and conjugation tables of the middle-slice occupancy.
    pub fn init_ud_slice_move_conj(&mut self) {
        let mut c = CubieCube::default();
        let mut d = CubieCube::default();
        let mut i: usize = 0;
        while i < N_SLICE
            invariant
                i <= N_SLICE,
                cubie_wf(c),
                cubie_wf(d),
            decreases N_SLICE - i,
        {
            c.set_ud_slice(i as u32);
            let mut jx: usize = 0;
            while jx < N_MOVES / 3
                invariant
                    jx <= N_MOVES / 3,
                    i < N_SLICE,
                    cubie_wf(c),
                    cubie_wf(d),
                decreases N_MOVES / 3 - jx,
            {
                let j = jx * 3;
                let mv = self.move_cubie(j);
                c.edge_mult(&mv, &mut d);
                let v = d.get_ud_slice();
                util::p16x(&mut self.ud_slice_move, i, j, (v % 65536) as u16);
                jx = jx + 1;
            }
            let mut jx2: usize = 0;
            while jx2 < 8
                invariant
                    jx2 <= 8,
                    i < N_SLICE,
                    cubie_wf(c),
                    cubie_wf(d),
                decreases 8 - jx2,
            {
                let j = jx2 * 2;
                let sinv = util::g8x(&self.sym_mult_inv, 0, j);
                c.edge_conjugate(self, sinv as u32, &mut d);
                let v = d.get_ud_slice();
                util::p16x(&mut self.ud_slice_conj, i, j / 2, (v % 65536) as u16);
                jx2 = jx2 + 1;
            }
            i = i + 1;
        }
        let mut i2: usize = 0;
        while i2 < N_SLICE
            invariant
                i2 <= N_SLICE,
            decreases N_SLICE - i2,
        {
            let mut jx: usize = 0;
            while jx < N_MOVES / 3
                invariant
                    jx <= N_MOVES / 3,
                    i2 < N_SLICE,
                decreases N_MOVES / 3 - jx,
            {
                let j = jx * 3;
                let mut udslice = util::g16x(&self.ud_slice_move, i2, j);
                let mut k2: usize = 1;
                while k2 < 3
                    invariant
                        k2 <= 3,
                        i2 < N_SLICE,
                        j < 18,
                    decreases 3 - k2,
                {
                    udslice = util::g16x(&self.ud_slice_move, udslice as usize, j);
                    util::p16x(&mut self.ud_slice_move, i2, j + k2, udslice);
                    k2 = k2 + 1;
                }
                jx = jx + 1;
            }
            i2 = i2 + 1;
        }
    }

    /// The phase-1 slice-and-twist pruning table.
    pub fn init_slice_twist_prun(&mut self) {
        let mut pt = util::zeros64(N_SLICE * N_TWIST_SYM / 16 + 1);
        init_raw_sym_prun(
            &mut pt,
            &self.ud_slice_move,
            &self.ud_slice_conj,
            &self.twist_move,
            &self.sym_state_twist,
            N_SLICE,
            N_TWIST_SYM,
            0x69603,
        );
        self.ud_slice_twist_prun = pt;
    }

    /// The phase-2 middle-slice-and-corner pruning table.
    pub fn init_mc_perm_prun(&mut self) {
        let mut pt = util::zeros64(N_MPERM * N_PERM_SYM / 16 + 1);
        init_raw_sym_prun(
            &mut pt,
            &self.m_perm_move,
            &self.m_perm_conj,
            &self.c_perm_move,
            &self.sym_state_perm,
            N_MPERM,
            N_PERM_SYM,
            0x8ea34,
        );
        self.mc_perm_prun = pt;
    }

    /// The phase-1 slice-and-flip pruning table.
    pub fn init_slice_flip_prun(&mut self) {
        let mut pt = util::zeros64(N_SLICE * N_FLIP_SYM / 16 + 1);
        init_raw_sym_prun(
            &mut pt,
            &self.ud_slice_move,
            &self.ud_slice_conj,
            &self.flip_move,
            &self.sym_state_flip,
            N_SLICE,
            N_FLIP_SYM,
            0x69603,
        );
        self.ud_slice_flip_prun = pt;
    }

    /// The phase-2 permutation-and-combination pruning table.
    pub fn init_perm_compb_prun(&mut self) {
        let mut pt = util::zeros64(N_COMB * N_PERM_SYM / 16 + 1);
        init_raw_sym_prun(
            &mut pt,
            &self.ccomb_p_move,
            &self.ccomb_p_conj,
            &self.e_perm_move,
            &self.sym_state_perm,
            N_COMB,
            N_PERM_SYM,
            0x7d824,
        );
        self.e_permccomb_prun = pt;
    }

    /// The phase-1 twist-and-flip pruning table, filled without the
    /// symmetry folding of the raw side.
    pub fn init_twist_flip_prun(&mut self)
        ensures
            tf_prun_frame(*old(self), *final (self)),
            final (self).twist_flip_prun@.len() == N_FLIP * N_TWIST_SYM / 16 + 1,
    {
        let mut pt = util::zeros64(N_FLIP * N_TWIST_SYM / 16 + 1);
        init_twist_flip(
            &mut pt,
            &self.flip_r2s,
            &self.flip_move,
            &self.flip_s2rf,
            &self.sym_8move,
            &self.twist_move,
            &self.sym_state_twist,
        );
        self.twist_flip_prun = pt;
    }
}

pub(crate) proof fn lemma_lr2_twist_bound(v: u8)
    by (bit_vector)
    requires
        v < 48,
    ensures
        ((v % 8) | 0x18) < 48,
{
}

/// Fills the twist-and-flip pruning table: backward propagation from the
/// solved pair, then a forward capping pass.
pub fn init_twist_flip(
    ptable: &mut Vec<u64>,
    flip_r2s: &Vec<u16>,
    flip_move: &Vec<Vec<u16>>,
    flip_s2rf: &Vec<u16>,
    sym_8move: &Vec<u8>,
    twist_move: &Vec<Vec<u16>>,
    sym_state_twist: &Vec<u16>,
)
    requires
        old(ptable)@.len() <= 0x10_0000,
    ensures
        final (ptable)@.len() == old(ptable)@.len(),
{
    let inv_depth: u32 = 6;
    let search_depth: u32 = 9;
    let n_raw: usize = N_FLIP;
    let n_size: usize = N_FLIP * N_TWIST_SYM;
    let blen = n_size / 16;
    let mut e: usize = 0;
    while e < ptable.len()
        invariant
            ptable@.len() == old(ptable)@.len(),
            e <= ptable@.len(),
        decreases ptable@.len() - e,
    {
        util::p64(ptable, e, 0x1111_1111_1111_1111);
        e = e + 1;
    }
    util::p64(ptable, 0, 0x1111_1111_1111_1110);
    let mut depth: u32 = 0;
    while depth < search_depth
        invariant
            ptable@.len() == old(ptable)@.len(),
            ptable@.len() <= 0x10_0000,
            depth <= 10,
            search_depth == 9,
            n_raw == N_FLIP,
        decreases search_depth - depth,
    {
        advance_markers(ptable, depth);
        let inv = depth > inv_depth;
        let select: u32 = if inv {
            depth + 2
        } else {
            depth
        };
        let check: u32 = if inv {
            depth
        } else {
            depth + 2
        };
        depth = depth + 1;
        let sel_mask = !(((select as u64) % 16) * 0x1111_1111_1111_1111);
        let mut index: usize = 0;
        while index < blen && index < ptable.len()
            invariant
                ptable@.len() == old(ptable)@.len(),
                ptable@.len() <= 0x10_0000,
                depth <= 10,
                n_raw == N_FLIP,
                index <= 0x10_0000,
            decreases ptable@.len() - index,
        {
            let mut bh = fill_64xmask4(util::g64(ptable, index) ^ sel_mask);
            while bh != 0
                invariant
                    ptable@.len() == old(ptable)@.len(),
                    ptable@.len() <= 0x10_0000,
                    depth <= 10,
                n_raw == N_FLIP,
                    index <= 0x10_0000,
                decreases bh,
            {
                let tz = bh.trailing_zeros() % 64;
                let i = ((tz / 4) as usize) + index * 16;
                proof {
                    lemma_clear_lowest(bh);
                }
                bh = bh & (bh - 1);
                let raw = i % n_raw;
                let sym = i / n_raw;
                let mut flip = util::g16(flip_r2s, raw);
                let fsym = (flip % 8) as usize;
                flip = flip >> 3u16;
                let mut m: usize = 0;
                while m < 18
                    invariant
                        ptable@.len() == old(ptable)@.len(),
                        ptable@.len() <= 0x10_0000,
                        depth <= 10,
                n_raw == N_FLIP,
                        index <= 0x10_0000,
                        sym <= 0x10_0000,
                        m <= 18,
                    decreases 18 - m,
                {
                    let symx0 = util::g16x(twist_move, sym, m) as u32;
                    let kk = util::g8(sym_8move, (m * 8 + fsym % 8) % 144);
                    let mm = util::g16x(flip_move, flip as usize, kk as usize) as u32;
                    let rawx = util::g16(
                        flip_s2rf,
                        ((mm ^ (fsym as u32) ^ (symx0 % 8)) % 65536) as usize,
                    ) as u32;
                    let symx = symx0 / 8;
                    let idx = mul_idx((symx % 65536) as usize, n_raw) + (rawx as usize);
                    let prun = read_prun(ptable, idx);
                    if prun == check {
                        if inv {
                            sub_prun(ptable, i);
                            m = 18;
                        } else {
                            sub_prun(ptable, idx);
                            let mut state_mask = util::g16(sym_state_twist, (symx % 65536) as usize)
                                & 0xfffe;
                            let idxx = mul_idx((symx % 65536) as usize, n_raw);
                            while state_mask != 0
                                invariant
                                    ptable@.len() == old(ptable)@.len(),
                                    idxx <= 0xffff * 4096,
                                decreases state_mask,
                            {
                                let j = state_mask.trailing_zeros() % 16;
                                proof {
                                    lemma_clear_lowest16(state_mask);
                                }
                                state_mask = state_mask & (state_mask - 1);
                                let kk2 = util::g16(flip_r2s, rawx as usize) as u32;
                                let r2 = util::g16(flip_s2rf, ((kk2 ^ j) % 65536) as usize);
                                let idxxx = idxx + r2 as usize;
                                if read_prun(ptable, idxxx) == check {
                                    sub_prun(ptable, idxxx);
                                }
                            }
                            m = m + 1;
                        }
                    } else {
                        m = m + 1;
                    }
                }
            }
            index = index + 1;
        }
    }
}

/// Incrementally builds a [`CubeTable`] one step at a time.
///
/// There are 7 initialization steps; each call to
/// [`next`](CubeTableEventedBuilder::next) performs one and returns the
/// number of steps remaining, so a caller can report progress or yield
/// between steps.
pub struct CubeTableEventedBuilder {
    pub table: CubeTable,
    pub remaining: i32,
}

/// The number of discrete steps of table construction.
pub const INIT_STEPS: i32 = 7;

impl Default for CubeTableEventedBuilder {
    /// A fresh builder with untouched tables.
    fn default() -> (r: CubeTableEventedBuilder) {
        CubeTableEventedBuilder::new()
    }
}

impl CubeTableEventedBuilder {
    /// A fresh builder with untouched tables.
    pub fn new() -> (r: CubeTableEventedBuilder)
        ensures
            r.remaining == INIT_STEPS,
    {
        CubeTableEventedBuilder { table: CubeTable::new_blank(), remaining: INIT_STEPS }
    }

    /// Performs one initialization step and returns the number of steps
    /// remaining, `6` down to `0`. Calling it after completion is a
    /// no-op that returns `0`.
    pub fn next(&mut self) -> (r: i32)
        ensures
            0 <= r <= 6,
            old(self).remaining <= 0 ==> r == 0 && *final (self) == *old(self),
            old(self).remaining > 7 ==> r == 0 && *final (self) == *old(self),
            0 < old(self).remaining <= 7 ==> final (self).remaining == old(self).remaining - 1 && r
                == final (self).remaining,
    {
        if self.remaining <= 0 || self.remaining > 7 {
            return 0;
        }
        if self.remaining == 7 {
            self.table.init_move();
            self.table.init_sym();
            self.table.init_perm_sym_2_raw();
            self.table.init_cperm_move();
            self.table.init_eperm_move();
            self.table.init_mperm_move_conj();
            self.table.init_combpmove_conj();
            self.table.init_flip_sym_2_raw();
        } else if self.remaining == 6 {
            self.table.init_twist_sym_2_raw();
            self.table.init_flip_move();
            self.table.init_twist_move();
            self.table.init_ud_slice_move_conj();
        } else if self.remaining == 5 {
            self.table.init_mc_perm_prun();
        } else if self.remaining == 4 {
            self.table.init_perm_compb_prun();
        } else if self.remaining == 3 {
            self.table.init_slice_twist_prun();
        } else if self.remaining == 2 {
            self.table.init_slice_flip_prun();
        } else {
            self.table.init_twist_flip_prun();
        }
        self.remaining = self.remaining - 1;
        self.remaining
    }
}

/// Guarded write of a whole stored state.
fn put_cubie(t: &mut Vec<CubieCube>, i: usize, v: CubieCube)
    ensures
        final (t)@.len() == old(t)@.len(),
        i < old(t)@.len() ==> final (t)@ == old(t)@.update(i as int, v),
{
    if i < t.len() {
        t.set(i, v);
    }
}

} // verus!
