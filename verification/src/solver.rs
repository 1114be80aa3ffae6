//! The two-phase heuristic solver: tables, coordinates, the search, and
//! the public solving entry point.
//!
//! The search itself is heuristic; what makes its answer trustworthy is
//! the final check here: a returned sequence is re-applied to the input
//! with the verified group algebra and handed out only if it solves the
//! cube within the move budget.
use crate::cube::center::center_is_perm;
use crate::cube::corner::{corner_unpack, cori, cpos};
use crate::cube::edge::{edge_unpack, eori, epos};
use crate::cube::{
    cc_centers_spec, cc_corners_spec, cube_mul_spec, cube_valid, cube_wf, Cube, FixedCentersCube,
};
use crate::moves::{cube_is_solved_spec, move_cube_spec, rotation_cube, FaceMove, Move, MoveAngle,
    MoveKind};
use vstd::prelude::*;

pub mod coord;
pub mod cube;
pub mod db;
pub mod search;
pub mod solution;
pub mod util;

verus! {

/// The depth budget the solver aims for.
pub const TARGET_DEPTH: u32 = 21;

/// Why a search returned no sequence.
#[derive(Clone, Copy, Debug, PartialEq, Eq, Structural)]
pub enum SearchError {
    /// No solution was found within the configured depth and probe
    /// budget.
    NoSolution,
}

/// The cube a move sequence prefix produces from a start state.
pub open spec fn cube_apply_seq(c: Cube, mvs: Seq<Move>, n: int) -> Cube
    decreases n,
{
    if n <= 0 {
        c
    } else {
        cube_mul_spec(cube_apply_seq(c, mvs, n - 1), move_cube_spec(mvs[n - 1]))
    }
}

/// A two-phase solver for the 3x3 cube.
///
/// Pruning tables are built automatically on the first call to
/// [`Solver::search`]. To build them ahead of time, for a progress
/// indicator, use [`Solver::initialize_tables_incremental`].
pub struct Solver {
    pub db: db::CubeTableEventedBuilder,
    pub searcher: search::Search,
}

impl Default for Solver {
    /// A solver with untouched tables: all seven construction steps
    /// still to run.
    fn default() -> (r: Solver)
        ensures
            search::search_wf(&r.searcher),
            r.db.remaining == db::INIT_STEPS,
    {
        Solver { db: db::CubeTableEventedBuilder::new(), searcher: search::Search::default() }
    }
}

/// The solver's edge array for an edge map: the inverse mapping,
/// relabelled into the solver's edge order.
/// The solver's edge slot relabelling.
pub open spec fn edge_relabel(i: int) -> int {
    if i == 0 {
        2int
    } else if i == 1 {
        6
    } else if i == 2 {
        0
    } else if i == 3 {
        4
    } else if i == 4 {
        10
    } else if i == 5 {
        9
    } else if i == 6 {
        8
    } else if i == 7 {
        11
    } else if i == 8 {
        3
    } else if i == 9 {
        5
    } else if i == 10 {
        1
    } else {
        7
    }
}

fn conv_e(set: crate::cube::EdgeMap) -> (r: cube::CubieEdges)
    requires
        crate::cube::edge::edge_wf(set.set),
    ensures
        cube::cubie_edges_wf(r),
        crate::cube::edge::edge_is_perm(set.set) ==> forall|i: int|
            #![trigger epos(set.set, i as u64)]
            0 <= i < 12 ==> r.raw[edge_relabel(epos(set.set, i as u64) as int)] as int == 2
                * edge_relabel(i) + eori(set.set, i as u64) as int,
{
    let (pos, ori) = edge_unpack(set.set);
    let mut atlus: [u8; 12] = [0; 12];
    let mut i: usize = 0;
    while i < 12
        invariant
            i <= 12,
            forall|j: u64| j < 12 ==> pos@[j as int] == epos(set.set, j),
            forall|j: u64| j < 12 ==> ori@[j as int] == eori(set.set, j),
            forall|j: int| 0 <= j < 12 ==> pos@[j] < 12,
            forall|j: int| 0 <= j < 12 ==> ori@[j] < 2,
            forall|j: int| 0 <= j < 12 ==> atlus@[j] < 28,
            crate::cube::edge::edge_is_perm(set.set) ==> forall|j: int|
                #![trigger epos(set.set, j as u64)]
                0 <= j < i as int ==> atlus@[epos(set.set, j as u64) as int] as int == j + 16
                    * eori(set.set, j as u64) as int,
        decreases 12 - i,
    {
        let ghost apre = atlus@;
        atlus[pos[i] as usize] = (i as u8) + 16 * ori[i];
        proof {
            if crate::cube::edge::edge_is_perm(set.set) {
                assert forall|j: int|
                    #![trigger epos(set.set, j as u64)]
                    0 <= j < i as int + 1 implies atlus@[epos(set.set, j as u64) as int] as int
                    == j + 16 * eori(set.set, j as u64) as int by {
                    if j < i as int {
                        assert(epos(set.set, j as u64) != epos(set.set, i as u64));
                        assert(atlus@[epos(set.set, j as u64) as int] == apre[epos(
                            set.set,
                            j as u64,
                        ) as int]);
                    }
                }
            }
        }
        i = i + 1;
    }
    let conv: [u8; 12] = [2, 6, 0, 4, 10, 9, 8, 11, 3, 5, 1, 7];
    let mut conv_inv: [u8; 12] = [0; 12];
    let mut i2: usize = 0;
    while i2 < 12
        invariant
            i2 <= 12,
            forall|j: int| 0 <= j < 12 ==> conv@[j] as int == edge_relabel(j),
            forall|j: int| 0 <= j < 12 ==> conv_inv@[j] < 12,
            forall|j: int| 0 <= j < i2 as int ==> conv_inv@[edge_relabel(j)] as int == j,
        decreases 12 - i2,
    {
        let ghost cpre = conv_inv@;
        conv_inv[(conv[i2] as usize) % 12] = i2 as u8;
        proof {
            assert forall|j: int| 0 <= j < i2 as int + 1 implies conv_inv@[edge_relabel(j)] as int
                == j by {
                if j < i2 as int {
                    assert(edge_relabel(j) != edge_relabel(i2 as int));
                    assert(conv_inv@[edge_relabel(j)] == cpre[edge_relabel(j)]);
                }
            }
        }
        i2 = i2 + 1;
    }
    let mut d: [u8; 12] = [0; 12];
    let mut i3: usize = 0;
    while i3 < 12
        invariant
            i3 <= 12,
            crate::cube::edge::edge_wf(set.set),
            forall|j: int| 0 <= j < 12 ==> atlus@[j] < 28,
            forall|j: int| 0 <= j < 12 ==> conv@[j] as int == edge_relabel(j),
            forall|j: int| 0 <= j < 12 ==> conv_inv@[j] < 12,
            forall|j: int| 0 <= j < 12 ==> conv_inv@[edge_relabel(j)] as int == j,
            forall|j: int| 0 <= j < 12 ==> d@[j] < 24,
            crate::cube::edge::edge_is_perm(set.set) ==> forall|j: int|
                #![trigger epos(set.set, j as u64)]
                0 <= j < 12 ==> atlus@[epos(set.set, j as u64) as int] as int == j + 16 * eori(
                    set.set,
                    j as u64,
                ) as int,
            crate::cube::edge::edge_is_perm(set.set) ==> forall|j: int|
                #![trigger epos(set.set, j as u64)]
                0 <= j < 12 && edge_relabel(epos(set.set, j as u64) as int) < i3 as int ==> d@[
                    edge_relabel(epos(set.set, j as u64) as int)] as int == 2 * edge_relabel(j)
                    + eori(set.set, j as u64) as int,
        decreases 12 - i3,
    {
        let ghost dpre = d@;
        let bits = atlus[(conv_inv[i3] as usize) % 12];
        let loc = conv[((bits % 16) as usize) % 12] % 12;
        d[i3] = loc * 2 + bits / 16;
        proof {
            if crate::cube::edge::edge_is_perm(set.set) {
                assert forall|j: int|
                    #![trigger epos(set.set, j as u64)]
                    0 <= j < 12 && edge_relabel(epos(set.set, j as u64) as int) < i3 as int
                        + 1 implies d@[edge_relabel(epos(set.set, j as u64) as int)] as int == 2
                    * edge_relabel(j) + eori(set.set, j as u64) as int by {
                    let pj = epos(set.set, j as u64) as int;
                    assert(0 <= pj < 12);
                    if edge_relabel(pj) < i3 as int {
                        assert(d@[edge_relabel(pj)] == dpre[edge_relabel(pj)]);
                    } else {
                        assert(edge_relabel(pj) == i3 as int);
                        assert(conv_inv@[edge_relabel(pj)] as int == pj);
                        assert(atlus@[pj] as int == j + 16 * eori(set.set, j as u64) as int);
                        assert(bits as int == j + 16 * eori(set.set, j as u64) as int);
                        assert(bits % 16 == j as u8) by {
                            vstd::arithmetic::div_mod::lemma_fundamental_div_mod(bits as int, 16);
                        }
                        assert(bits / 16 == eori(set.set, j as u64) as u8) by {
                            vstd::arithmetic::div_mod::lemma_fundamental_div_mod(bits as int, 16);
                        }
                        assert(loc as int == edge_relabel(j));
                    }
                }
            }
        }
        i3 = i3 + 1;
    }
    cube::CubieEdges { raw: d }
}

/// The solver's corner array for a corner map: the inverse mapping,
/// relabelled into the solver's corner order with twists inverted.
/// The solver's corner slot relabelling.
pub open spec fn corner_relabel(i: int) -> int {
    if i == 0 {
        0int
    } else if i == 1 {
        4
    } else if i == 2 {
        3
    } else if i == 3 {
        7
    } else if i == 4 {
        1
    } else if i == 5 {
        5
    } else if i == 6 {
        2
    } else {
        6
    }
}

fn conv_c(set: crate::cube::CornerMap) -> (r: cube::CubieCorners)
    requires
        crate::cube::corner::corner_wf(set.raw),
    ensures
        cube::cubie_corners_wf(r),
        crate::cube::corner::corner_is_perm(set.raw) ==> forall|i: int|
            #![trigger cpos(set.raw, i as u64)]
            0 <= i < 8 ==> r.raw[corner_relabel(cpos(set.raw, i as u64) as int)] as int
                == corner_relabel(i) + 8 * ((3 - cori(set.raw, i as u64) as int) % 3),
{
    let (pos, ori) = corner_unpack(set.raw);
    let m: [u8; 8] = [0, 4, 3, 7, 1, 5, 2, 6];
    let mut d: [u8; 8] = [0; 8];
    let mut i: usize = 0;
    while i < 8
        invariant
            i <= 8,
            forall|j: u64| j < 8 ==> pos@[j as int] == cpos(set.raw, j),
            forall|j: u64| j < 8 ==> ori@[j as int] == cori(set.raw, j),
            forall|j: int| 0 <= j < 8 ==> pos@[j] < 8,
            forall|j: int| 0 <= j < 8 ==> ori@[j] < 3,
            forall|j: int| 0 <= j < 8 ==> d@[j] < 48,
            forall|j: int| 0 <= j < 8 ==> m@[j] as int == corner_relabel(j),
            crate::cube::corner::corner_is_perm(set.raw) ==> forall|j: int|
                #![trigger cpos(set.raw, j as u64)]
                0 <= j < i as int ==> d@[corner_relabel(cpos(set.raw, j as u64) as int)] as int
                    == corner_relabel(j) + 8 * ((3 - cori(set.raw, j as u64) as int) % 3),
        decreases 8 - i,
    {
        let ghost dpre = d@;
        let mp = m[pos[i] as usize];
        let me = m[i] % 8;
        let inv_t = (3 - ori[i]) % 3;
        d[(mp % 8) as usize] = me + 8 * inv_t;
        proof {
            if crate::cube::corner::corner_is_perm(set.raw) {
                assert forall|j: int|
                    #![trigger cpos(set.raw, j as u64)]
                    0 <= j < i as int + 1 implies d@[corner_relabel(
                    cpos(set.raw, j as u64) as int,
                )] as int == corner_relabel(j) + 8 * ((3 - cori(set.raw, j as u64) as int) % 3) by {
                    if j < i as int {
                        assert(cpos(set.raw, j as u64) != cpos(set.raw, i as u64));
                        assert(mp as int == corner_relabel(cpos(set.raw, i as u64) as int));
                        assert(corner_relabel(cpos(set.raw, j as u64) as int) != corner_relabel(
                            cpos(set.raw, i as u64) as int,
                        ));
                        assert(d@[corner_relabel(cpos(set.raw, j as u64) as int)] == dpre[
                            corner_relabel(cpos(set.raw, j as u64) as int)]);
                    }
                }
            }
        }
        i = i + 1;
    }
    cube::CubieCorners { raw: d }
}

/// The same cube with its centers rotated home: the state the solver's
/// fixed-center representation expects.
fn fixed_from_cube(c: Cube) -> (r: FixedCentersCube)
    requires
        cube_wf(c),
        center_is_perm(cc_centers_spec(c.centered_corners.raw)),
    ensures
        crate::cube::fc_wf(r),
        exists|w: u64|
            {
                let rot = if crate::moves::center_index_spec(w) < 24 {
                    crate::moves::rotation_cube_spec(crate::moves::center_index_spec(w) as int)
                } else {
                    crate::cube::cube_identity()
                };
                &&& #[trigger] crate::cube::center::center_inv_rel(
                    w,
                    cc_centers_spec(c.centered_corners.raw),
                )
                &&& crate::cube::center::center_is_perm(w)
                &&& r.corners.raw == crate::cube::corner::cm_mul_spec(
                    cc_corners_spec(c.centered_corners.raw),
                    cc_corners_spec(rot.centered_corners.raw),
                )
                &&& r.edges.set == crate::cube::edge::em_mul_spec(c.edges.set, rot.edges.set)
            },
{
    let inv = c.centers().inverse();
    let idx = inv.index();
    let rot = if idx < 24 {
        rotation_cube(idx)
    } else {
        Cube::default()
    };
    let out = FixedCentersCube {
        corners: c.corners().multiply(rot.corners()),
        edges: c.edges().multiply(rot.edges()),
    };
    proof {
        let w = inv.raw;
        assert(crate::cube::center::center_inv_rel(
            w,
            cc_centers_spec(c.centered_corners.raw),
        ));
        assert(rot == (if crate::moves::center_index_spec(w) < 24 {
            crate::moves::rotation_cube_spec(crate::moves::center_index_spec(w) as int)
        } else {
            crate::cube::cube_identity()
        }));
    }
    out
}

/// Merges consecutive opposite-face turns into slice moves and
/// re-projects the sequence through the rotation the slice moves
/// accumulate.
fn replace_with_slice(turns: &Vec<FaceMove>) -> (r: Vec<Move>) {
    let mut out: Vec<Move> = Vec::new();
    if turns.len() == 0 {
        return out;
    }
    let mut prev: Move = turns[0].to_move();
    let mut i: usize = 1;
    while i < turns.len()
        invariant
            1 <= i <= turns@.len(),
        decreases turns@.len() - i,
    {
        let next = turns[i];
        let pk = prev.kind();
        let opposite_faces = pk == MoveKind::Face && prev.face().opposite().index()
            == next.face().index();
        let pa = prev.angle();
        let na = next.angle();
        if opposite_faces && pa == MoveAngle::Two && na == MoveAngle::Two {
            prev = Move::new(MoveKind::Slice, prev.face(), MoveAngle::Two);
        } else if opposite_faces && pa == MoveAngle::Cw && na == MoveAngle::Ccw {
            prev = Move::new(MoveKind::Slice, next.face(), MoveAngle::Cw);
        } else if opposite_faces && pa == MoveAngle::Ccw && na == MoveAngle::Cw {
            prev = Move::new(MoveKind::Slice, next.face(), MoveAngle::Ccw);
        } else {
            out.push(prev);
            prev = next.to_move();
        }
        i = i + 1;
    }
    out.push(prev);
    let mut rotation = crate::cube::CenterMap::default();
    let mut res: Vec<Move> = Vec::new();
    let mut k: usize = 0;
    while k < out.len()
        invariant
            k <= out@.len(),
            crate::cube::center::center_wf(rotation.raw),
        decreases out@.len() - k,
    {
        let mv = out[k].projection(rotation);
        let mc = mv.cube();
        rotation = rotation.multiply(mc.centers());
        res.push(mv);
        k = k + 1;
    }
    res
}

impl Solver {
    /// Performs one step of pruning table initialization.
    ///
    /// There are 7 initialization steps in total. Returns the number of
    /// steps remaining, or 0 when fully initialized; calling it after
    /// completion is a no-op that returns 0. Useful for showing progress
    /// during initialization; [`Solver::search`] builds the tables
    /// automatically when they are not ready.
    pub fn initialize_tables_incremental(&mut self) -> (r: i32)
        ensures
            0 <= r <= 6,
            0 < old(self).db.remaining <= 7 ==> final (self).db.remaining == old(
                self,
            ).db.remaining - 1 && r == final (self).db.remaining,
            !(0 < old(self).db.remaining <= 7) ==> r == 0 && final (self).db == old(self).db,
            final (self).searcher == old(self).searcher,
    {
        self.db.next()
    }

    /// Finds a move sequence that returns the given state to solved.
    ///
    /// On success the returned sequence, applied to `cube` move by move,
    /// yields a solved cube, and it holds at most 21 moves; consecutive
    /// opposite-face turns are merged into slice moves and the sequence
    /// is projected so it applies to the cube in its given orientation.
    /// When the search exhausts its depth and probe budget without such
    /// a sequence, it reports that as an error.
    pub fn search(&mut self, c: Cube) -> (r: Result<Vec<Move>, SearchError>)
        requires
            cube_valid(c),
            search::search_wf(&old(self).searcher),
        ensures
            search::search_wf(&final (self).searcher),
            r is Ok ==> r->Ok_0@.len() <= 21 && cube_is_solved_spec(
                cube_apply_seq(c, r->Ok_0@, r->Ok_0@.len() as int),
            ),
            cube_is_solved_spec(c) ==> r is Ok && r->Ok_0@.len() == 0,
    {
        if c.is_solved() {
            let empty: Vec<Move> = Vec::new();
            proof {
                assert(cube_apply_seq(c, empty@, 0) == c);
            }
            return Ok(empty);
        }
        let fixed = fixed_from_cube(c);
        let cc = cube::CubieCube { edges: conv_e(fixed.edges), corners: conv_c(fixed.corners) };
        if self.db.remaining > 0 {
            let mut guard: u32 = 0;
            while guard < 8
                invariant
                    guard <= 8,
                    search::search_wf(&self.searcher),
                decreases 8 - guard,
            {
                let left = self.db.next();
                if left == 0 {
                    guard = 8;
                } else {
                    guard = guard + 1;
                }
            }
        }
        let ordinals = self.searcher.solve_cc(&self.db.table, cc, TARGET_DEPTH, 100000, 25, 0);
        let map: [FaceMove; 18] = [
            FaceMove::U1,
            FaceMove::U2,
            FaceMove::U3,
            FaceMove::R1,
            FaceMove::R2,
            FaceMove::R3,
            FaceMove::F1,
            FaceMove::F2,
            FaceMove::F3,
            FaceMove::D1,
            FaceMove::D2,
            FaceMove::D3,
            FaceMove::L1,
            FaceMove::L2,
            FaceMove::L3,
            FaceMove::B1,
            FaceMove::B2,
            FaceMove::B3,
        ];
        let rotation = c.centers();
        let mut face_turns: Vec<FaceMove> = Vec::new();
        let mut t: usize = 0;
        while t < ordinals.len()
            invariant
                t <= ordinals@.len(),
                forall|j: int| 0 <= j < ordinals@.len() ==> ordinals@[j] < 18,
                crate::cube::center::center_wf(rotation.raw),
                search::search_wf(&self.searcher),
            decreases ordinals@.len() - t,
        {
            let o = ordinals[t];
            let fm = map[(o % 18) as usize].projection(rotation);
            face_turns.push(fm);
            t = t + 1;
        }
        let candidate = replace_with_slice(&face_turns);
        let mut applied = c;
        let mut k: usize = 0;
        while k < candidate.len()
            invariant
                k <= candidate@.len(),
                cube_wf(applied),
                applied == cube_apply_seq(c, candidate@, k as int),
                search::search_wf(&self.searcher),
            decreases candidate@.len() - k,
        {
            applied = applied.apply_move(candidate[k]);
            k = k + 1;
        }
        let solved = applied.is_solved();
        if solved && candidate.len() <= 21 {
            Ok(candidate)
        } else {
            Err(SearchError::NoSolution)
        }
    }
}

} // verus!
