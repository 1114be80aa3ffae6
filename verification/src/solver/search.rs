//! The two-phase iterative-deepening search: re-orientations and
//! pre-moves around a phase-1 descent, each phase-1 solution handed to a
//! bounded phase-2 descent, under a probe budget.
use super::coord::{conjugate_move, MPerm, Phase1Cube, Phase2Cube, SymCPerm, SymEPerm, SymFlip,
    SymTwist, Turn, UDSlice, UDTurn};
use super::cube::{cubie_wf, CubieCube};
use super::db::CubeTable;
use super::util;
use vstd::prelude::*;

verus! {

/// Most pre-moves tried before phase 1.
pub const MAX_PRE_MOVES: u32 = 20;

/// Below this phase-1 length no pre-moves are prepended.
pub const MIN_P1LENGTH_PRE: u32 = 7;

/// The phase-2 depth ceiling.
pub const MAX_DEPTH2: u32 = 12;

/// One search invocation's working state.
pub struct Search {
    pub conj_mask: u32,
    pub urf_idx: u32,
    pub length1: u32,
    pub depth1: u32,
    pub max_dep2: u32,
    pub sol_len: u32,
    pub verbose: u32,
    pub probe: u64,
    pub probe_max: u64,
    pub probe_min: u64,
    pub self_sym: u64,
    pub cc: CubieCube,
    pub urf_cubie: [CubieCube; 6],
    pub phase1_cubie: CubieCube,
    pub pre_move_len: u32,
    pub max_pre_moves: u32,
    pub solution: super::solution::Solution,
    pub moves: [u8; 31],
    pub pre_moves: [u8; 20],
    pub is_rec: bool,
    pub allow_shorter: bool,
}

impl Default for Search {
    fn default() -> (r: Search)
        ensures
            search_wf(&r),
    {
        Search {
            conj_mask: 0,
            urf_idx: 0,
            length1: 0,
            depth1: 0,
            max_dep2: 0,
            sol_len: 0,
            verbose: 0,
            probe: 0,
            probe_max: 0,
            probe_min: 0,
            self_sym: 0,
            cc: CubieCube::default(),
            urf_cubie: [CubieCube::default();6],
            phase1_cubie: CubieCube::default(),
            pre_move_len: 0,
            max_pre_moves: 0,
            solution: super::solution::Solution::default(),
            moves: [0; 31],
            pre_moves: [0; 20],
            is_rec: false,
            allow_shorter: false,
        }
    }
}

/// The stored states are well-formed and the counters are in range.
pub open spec fn search_wf(s: &Search) -> bool {
    &&& cubie_wf(s.cc)
    &&& cubie_wf(s.phase1_cubie)
    &&& (forall|i: int| 0 <= i < 6 ==> cubie_wf(s.urf_cubie[i]))
    &&& s.depth1 <= 31
    &&& s.pre_move_len <= 20
    &&& s.max_pre_moves <= 20
}

/// Writes into the 31-entry move buffer; out-of-range writes are
/// dropped.
fn set31(a: &mut [u8; 31], i: usize, v: u8) {
    if i < 31 {
        a[i] = v;
    }
}

/// Writes into the 20-entry pre-move buffer; out-of-range writes are
/// dropped.
fn set20(a: &mut [u8; 20], i: usize, v: u8) {
    if i < 20 {
        a[i] = v;
    }
}

/// The iterator over phase-1 moves not ruled out by the previous move's
/// axis.
pub struct TurnIterator {
    pub turn_mask: u32,
}

impl TurnIterator {
    /// All moves except those sharing the previous move's axis.
    pub fn new(previous_turn: i32) -> (r: TurnIterator) {
        let sh: u32 = if previous_turn >= 0 && previous_turn <= 18 {
            (18 - previous_turn) as u32
        } else {
            31
        };
        TurnIterator { turn_mask: (!(0b000000000111000000111000000000u32 >> sh)) & 0x3ffff }
    }

    /// Drops the whole axis of one move.
    pub fn skip_turn_axis(&mut self, turn: u8)
        ensures
            final (self).turn_mask <= old(self).turn_mask,
    {
        let base = ((turn as u32) / 3) * 3;
        proof {
            lemma_and_le32(self.turn_mask, !(0b111u32 << ((base % 32) as u32)));
        }
        self.turn_mask = self.turn_mask & (!(0b111u32 << (base % 32)));
    }

    /// The next move ordinal, if one is left.
    pub fn next(&mut self) -> (r: Option<u8>)
        ensures
            old(self).turn_mask == 0 <==> r is None,
            r is Some ==> (final (self).turn_mask as int) < (old(self).turn_mask as int),
            r is Some ==> r->0 < 32,
    {
        if self.turn_mask == 0 {
            None
        } else {
            let m = (self.turn_mask.trailing_zeros() % 32) as u8;
            proof {
                lemma_clear_lowest32(self.turn_mask);
            }
            self.turn_mask = self.turn_mask & (self.turn_mask - 1);
            Some(m)
        }
    }
}

pub(crate) proof fn lemma_and_le32(x: u32, y: u32)
    by (bit_vector)
    ensures
        (x & y) <= x,
{
}

pub(crate) proof fn lemma_and_le16(x: u16, y: u16)
    by (bit_vector)
    ensures
        (x & y) <= x,
{
}

pub(crate) proof fn lemma_clear_lowest32(x: u32)
    by (bit_vector)
    requires
        x >= 1,
    ensures
        (x & ((x - 1) as u32)) < x,
{
}

pub(crate) proof fn lemma_clear_lowest16s(x: u16)
    by (bit_vector)
    requires
        x >= 1,
    ensures
        (x & ((x - 1) as u16)) < x,
{
}

/// The iterator over phase-2 moves not ruled out by the previous one.
pub struct UDTurnIterator {
    pub turn_mask: u16,
}

impl UDTurnIterator {
    /// All phase-2 moves the previous one leaves productive.
    pub fn new(previous_turn: UDTurn) -> (r: UDTurnIterator) {
        UDTurnIterator {
            turn_mask: (!util::ckmv2bit(previous_turn.0 as usize)) & 0b11_111_11_111u16,
        }
    }

    /// Drops the whole axis of one move.
    pub fn skip_turn_axis(&mut self, turn: UDTurn)
        ensures
            final (self).turn_mask <= old(self).turn_mask,
    {
        let t = (turn.0 % 8) as usize;
        let skip: [u8; 8] = [0b111, 0b111, 0b111, 0, 0, 0b1110_0000, 0b1110_0000, 0b1110_0000];
        proof {
            lemma_and_le16(self.turn_mask, !(skip@[t as int] as u16));
        }
        self.turn_mask = self.turn_mask & (!(skip[t] as u16));
    }

    /// The next move ordinal, if one is left.
    pub fn next(&mut self) -> (r: Option<UDTurn>)
        ensures
            old(self).turn_mask == 0 <==> r is None,
            r is Some ==> (final (self).turn_mask as int) < (old(self).turn_mask as int),
    {
        if self.turn_mask == 0 {
            None
        } else {
            let m = (self.turn_mask.trailing_zeros() % 16) as u8;
            proof {
                lemma_clear_lowest16s(self.turn_mask);
            }
            self.turn_mask = self.turn_mask & (self.turn_mask - 1);
            Some(UDTurn(m))
        }
    }
}

impl Search {
    /// Runs a whole two-phase search on a state: iterative deepening on
    /// the total length, over the non-redundant re-orientations, until
    /// the probe budget is spent. Returns the found phase-1 move
    /// ordinals, possibly none.
    pub fn solve_cc(
        &mut self,
        db: &CubeTable,
        cc: CubieCube,
        max_depth: u32,
        probe_max: u64,
        probe_min: u64,
        verbose: u32,
    ) -> (r: Vec<u8>)
        requires
            cubie_wf(cc),
            search_wf(old(self)),
            max_depth <= 30,
        ensures
            search_wf(final (self)),
            r@.len() <= 31,
            forall|i: int| 0 <= i < r@.len() ==> r@[i] < 18,
    {
        self.cc = cc;
        self.sol_len = max_depth + 1;
        self.probe = 0;
        self.probe_max = probe_max;
        self.probe_min = probe_min;
        self.verbose = verbose;
        self.solution.len = 0;
        self.is_rec = false;
        self.init_search(db);
        self.run_lengths(db)
    }

    /// The iterative-deepening driver.
    fn run_lengths(&mut self, db: &CubeTable) -> (r: Vec<u8>)
        requires
            search_wf(old(self)),
        ensures
            search_wf(final (self)),
            r@.len() <= 31,
            forall|i: int| 0 <= i < r@.len() ==> r@[i] < 18,
    {
        self.length1 = 0;
        let mut guard: u32 = 0;
        while self.length1 < self.sol_len && guard < 32
            invariant
                search_wf(self),
                guard <= 32,
            decreases 32 - guard,
        {
            self.max_dep2 = if self.sol_len > self.length1 {
                let d = self.sol_len - self.length1 - 1;
                if d < MAX_DEPTH2 {
                    d
                } else {
                    MAX_DEPTH2
                }
            } else {
                0
            };
            self.urf_idx = 0;
            let mut u: u32 = 0;
            while u < 6
                invariant
                    search_wf(self),
                    u <= 6,
                decreases 6 - u,
            {
                self.urf_idx = u;
                if (self.conj_mask >> (u % 32)) & 1 == 0 {
                    let start = self.urf_cubie[u as usize];
                    let ssym = (self.self_sym % 0x1_0000) as u32;
                    if self.phase1_pre_moves(db, self.max_pre_moves, -12, &start, ssym) == 0 {
                        return self.solution.to_vec();
                    }
                }
                u = u + 1;
            }
            if self.length1 < 0xffff_0000 {
                self.length1 = self.length1 + 1;
            }
            guard = guard + 1;
        }
        self.solution.to_vec()
    }

    /// Computes the six re-orientations of the state and the mask of
    /// those its self-symmetries make redundant.
    fn init_search(&mut self, db: &CubeTable)
        requires
            search_wf(old(self)),
        ensures
            search_wf(final (self)),
    {
        self.conj_mask = 0;
        self.self_sym = db.self_symmetry(&self.cc);
        if (self.self_sym >> 16u64) % 0x1_0000 != 0 {
            self.conj_mask = self.conj_mask | 0x12;
        }
        if (self.self_sym >> 32u64) % 0x1_0000 != 0 {
            self.conj_mask = self.conj_mask | 0x24;
        }
        if (self.self_sym >> 48u64) % 0x1_0000 != 0 {
            self.conj_mask = self.conj_mask | 0x38;
        }
        self.self_sym = self.self_sym % 0x1_0000_0000_0000;
        self.max_pre_moves = if self.conj_mask > 7 {
            0
        } else {
            MAX_PRE_MOVES
        };
        let mut i: usize = 0;
        while i < 6
            invariant
                search_wf(self),
                i <= 6,
            decreases 6 - i,
        {
            let cur = self.cc;
            if i < 6 {
                self.urf_cubie[i] = cur;
                proof {
                    assert(forall|k: int|
                        0 <= k < 6 ==> cubie_wf(self.urf_cubie[k]));
                }
            }
            self.cc.urf_conjugate();
            if i % 3 == 2 {
                self.cc = self.cc.invert();
            }
            i = i + 1;
        }
    }

    /// Tries up to `maxl` pre-moves before the phase-1 descent; returns
    /// zero when a full solution was recorded.
    fn phase1_pre_moves(
        &mut self,
        db: &CubeTable,
        maxl: u32,
        lm: i32,
        cc: &CubieCube,
        ssym: u32,
    ) -> (r: i32)
        requires
            search_wf(old(self)),
            cubie_wf(*cc),
            maxl <= 20,
        ensures
            search_wf(final (self)),
        decreases maxl,
    {
        self.pre_move_len = self.max_pre_moves - (if maxl <= self.max_pre_moves {
            maxl
        } else {
            self.max_pre_moves
        });
        let mut node = Phase1Cube::default();
        let try_here = if self.is_rec {
            self.depth1 as i64 == self.length1 as i64 - self.pre_move_len as i64
        } else {
            self.pre_move_len == 0 || (0 <= lm && lm <= 18 && (0x32FB7u32 >> ((lm as u32) % 32)) % 2
                == 0)
        };
        if try_here {
            if self.length1 >= self.pre_move_len {
                self.depth1 = self.length1 - self.pre_move_len;
                if self.depth1 > 31 {
                    self.depth1 = 31;
                }
            } else {
                self.depth1 = 0;
            }
            self.phase1_cubie = *cc;
            self.allow_shorter = self.depth1 == MIN_P1LENGTH_PRE && self.pre_move_len != 0;
            let viable = node.set_with_prun(db, cc, self.depth1);
            if viable {
                let d1 = self.depth1;
                if self.phase1(db, &node, d1, -12) == 0 {
                    return 0;
                }
            }
        }
        if maxl == 0 || self.pre_move_len as u64 + MIN_P1LENGTH_PRE as u64 >= self.length1 as u64 {
            return 1;
        }
        let mut skip_moves = db.get_skip_moves(ssym as u64);
        if maxl == 1 || self.pre_move_len as u64 + MIN_P1LENGTH_PRE as u64 + 1 >= self.length1 as u64 {
            skip_moves = skip_moves | 0x36FB7;
        }
        let lmx = (lm / 3) * 3;
        let axis_skip: u32 = if lmx >= 0 && lmx <= 18 {
            0b111000000111000000111000000000u32 >> (((18 - lmx) as u32) % 32)
        } else {
            0
        };
        skip_moves = skip_moves | axis_skip;
        let mut move_mask = (!skip_moves) & 0x3ffff;
        while move_mask != 0
            invariant
                search_wf(self),
                cubie_wf(*cc),
                maxl <= 20,
                maxl >= 1,
            decreases move_mask,
        {
            let m = (move_mask.trailing_zeros() % 32) as i32;
            proof {
                lemma_clear_lowest32(move_mask);
            }
            move_mask = move_mask & (move_mask - 1);
            let mut next = CubieCube::default();
            let mv = db.move_cubie((m as usize) % 18);
            mv.corn_mult(cc, &mut next);
            mv.edge_mult(cc, &mut next);
            let slot = if self.max_pre_moves >= maxl {
                self.max_pre_moves - maxl
            } else {
                0
            };
            set20(&mut self.pre_moves, slot as usize, (m % 256) as u8);
            let sym_m = util::g64(&db.move_cube_sym, (m as usize) % 18);
            let ret = self.phase1_pre_moves(db, maxl - 1, m, &next, ssym & ((sym_m
                % 0x1_0000_0000) as u32));
            if ret == 0 {
                return 0;
            }
        }
        1
    }

    /// Replays the recorded phase-1 moves onto the phase-1 start state
    /// and drives the phase-2 attempts, flipping the final move or
    /// pre-move between attempts.
    fn init_phase2_pre(&mut self, db: &CubeTable) -> (r: u32)
        requires
            search_wf(old(self)),
        ensures
            search_wf(final (self)),
            r <= 2,
    {
        self.is_rec = false;
        let probe_bound = if self.solution.len > 0 {
            self.probe_min
        } else {
            self.probe_max
        };
        if self.probe >= probe_bound {
            return 0;
        }
        if self.probe < 0xffff_ffff_ffff_ffff {
            self.probe = self.probe + 1;
        }
        let mut node = self.phase1_cubie;
        let mut i: usize = 0;
        let d1 = if self.depth1 <= 31 {
            self.depth1 as usize
        } else {
            31
        };
        while i < d1
            invariant
                search_wf(self),
                cubie_wf(node),
                i <= d1 <= 31,
            decreases d1 - i,
        {
            let mv = db.move_cubie((self.moves[i] as usize) % 18);
            node.corners = node.corners.mult(mv.corners);
            node.edges = node.edges.mult(&mv.edges);
            i = i + 1;
        }
        let mut corn = SymCPerm::from(db, &node);
        let mut edge = SymEPerm::from(db, &node);
        let mut mid = MPerm::from(db, &node);
        let mut edge_inv = edge.inverse(db);
        let mut corn_inv = corn.inverse(db);
        let mut ret: u32 = 0;
        let last_move: i32 = if self.depth1 == 0 {
            -1
        } else {
            (self.moves[(self.depth1 as usize - 1) % 31]) as i32
        };
        let last_pre: i32 = if self.pre_move_len == 0 {
            -1
        } else {
            (self.pre_moves[(self.pre_move_len as usize - 1) % 20]) as i32
        };
        let p2switch_max: u32 = (if self.pre_move_len == 0 {
            1
        } else {
            2
        }) * (if self.depth1 == 0 {
            1
        } else {
            2
        });
        let mut p2switch: u32 = 0;
        let mut mask: i32 = if p2switch_max == 1 {
            1
        } else if p2switch_max == 2 {
            3
        } else {
            15
        };
        while p2switch < p2switch_max
            invariant
                search_wf(self),
                p2switch_max <= 4,
                p2switch <= p2switch_max,
            decreases p2switch_max - p2switch,
        {
            if (mask >> (p2switch % 31)) % 2 != 0 {
                mask = mask & (!(1i32 << (p2switch % 31)));
                ret = self.init_phase2(db, corn, edge, mid, edge_inv, corn_inv);
                if ret == 0 || ret > 2 {
                    p2switch = p2switch_max;
                    continue ;
                }
                if ret == 2 {
                    mask = mask & (0x4i32 << (p2switch % 31));
                }
            }
            if mask == 0 {
                p2switch = p2switch_max;
                continue ;
            }
            if p2switch % 2 == 0 && self.depth1 > 0 {
                let mv = (conjugate_move(((last_move as u32) % 32)) % 16) as usize;
                let slot = (self.depth1 as usize - 1) % 31;
                let flipped = 2 * (util::ud2std(mv) as i32) - (self.moves[slot] as i32);
                set31(&mut self.moves, slot, ((flipped % 256 + 256) % 256) as u8);
                let t = UDTurn((mv % 16) as u8);
                mid = mid.turn(db, t);
                corn = corn.turn(db, t);
                edge = edge.turn(db, t);
                corn_inv = corn.inverse(db);
                edge_inv = edge.inverse(db);
            } else if self.pre_move_len > 0 {
                let mv = (conjugate_move(((last_pre as u32) % 32)) % 16) as usize;
                let slot = (self.pre_move_len as usize - 1) % 20;
                let flipped = 2 * (util::ud2std(mv) as i32) - (self.pre_moves[slot] as i32);
                set20(&mut self.pre_moves, slot, ((flipped % 256 + 256) % 256) as u8);
                let t = UDTurn((mv % 16) as u8);
                mid = mid.turn_inverse(db, t);
                corn_inv = corn_inv.turn(db, t);
                edge_inv = edge_inv.turn(db, t);
                corn = corn_inv.inverse(db);
                edge = edge_inv.inverse(db);
            }
            p2switch = p2switch + 1;
        }
        if self.depth1 > 0 {
            let slot = (self.depth1 as usize - 1) % 31;
            set31(&mut self.moves, slot, ((last_move % 256 + 256) % 256) as u8);
        }
        if self.pre_move_len > 0 {
            let slot = (self.pre_move_len as usize - 1) % 20;
            set20(&mut self.pre_moves, slot, ((last_pre % 256 + 256) % 256) as u8);
        }
        if ret == 0 {
            0
        } else {
            2
        }
    }

    /// One phase-2 attempt: bounded descent from the handed coordinates,
    /// recording any solution shorter than the best one.
    fn init_phase2(
        &mut self,
        db: &CubeTable,
        corn: SymCPerm,
        edge: SymEPerm,
        mid: MPerm,
        edge_inv: SymEPerm,
        corn_inv: SymCPerm,
    ) -> (r: u32)
        requires
            search_wf(old(self)),
        ensures
            search_wf(final (self)),
    {
        let p1 = super::coord::prune_cperm_eperm(db, corn_inv, edge_inv) as i32;
        let p2 = super::coord::prune_mperm_cperm(db, mid, corn) as i32;
        let p3 = super::coord::prune_cperm_eperm(db, corn, edge) as i32;
        let mut prun = p1;
        if p2 > prun {
            prun = p2;
        }
        if p3 > prun {
            prun = p3;
        }
        if prun as u32 > self.max_dep2 {
            return (prun as u32) - self.max_dep2;
        }
        let mut depth2: i32 = if self.max_dep2 <= 12 {
            self.max_dep2 as i32
        } else {
            12
        };
        let mut guard: u32 = 0;
        while depth2 >= prun && guard < 16
            invariant
                search_wf(self),
                prun >= 0,
                depth2 <= 12,
                guard <= 16,
            decreases 16 - guard,
        {
            let node = Phase2Cube { mperm: mid, cperm: corn, eperm: edge, last_turn: UDTurn(10) };
            let ret = self.phase2(db, node, depth2, self.depth1);
            if ret < 0 {
                guard = 16;
                continue ;
            }
            depth2 = depth2 - ret;
            self.sol_len = 0;
            self.solution.len = 0;
            let v = self.verbose;
            let u = self.urf_idx;
            let d = self.depth1;
            self.solution.set_args(v, u, d);
            let total = self.depth1 as i64 + depth2 as i64;
            let mut i: usize = 0;
            while (i as i64) < total && i < 31
                invariant
                    search_wf(self),
                    i <= 31,
                decreases 31 - i,
            {
                let mv = self.moves[i];
                self.solution.push(mv as u32);
                i = i + 1;
            }
            let mut j: usize = if self.pre_move_len <= 20 {
                self.pre_move_len as usize
            } else {
                20
            };
            while j > 0
                invariant
                    search_wf(self),
                    j <= 20,
                decreases j,
            {
                j = j - 1;
                let mv = self.pre_moves[j];
                self.solution.push(mv as u32);
            }
            self.sol_len = self.solution.len;
            depth2 = depth2 - 1;
            guard = guard + 1;
        }
        if (depth2 as i64) != (self.max_dep2 as i64) {
            let limit = if self.sol_len > self.length1 {
                self.sol_len - self.length1 - 1
            } else {
                0
            };
            self.max_dep2 = if limit < MAX_DEPTH2 {
                limit
            } else {
                MAX_DEPTH2
            };
            if self.probe >= self.probe_min {
                0
            } else {
                1
            }
        } else {
            1
        }
    }

    /// The phase-1 depth-first descent under the admissible bounds, with
    /// whole axes skipped once a move on them cannot meet the budget.
    fn phase1(&mut self, db: &CubeTable, node: &Phase1Cube, max_depth: u32, lm: i32) -> (r: i32)
        requires
            search_wf(old(self)),
            max_depth <= 31,
        ensures
            search_wf(final (self)),
        decreases max_depth,
    {
        if node.prun == 0 && max_depth < 5 {
            if self.allow_shorter || max_depth == 0 {
                if self.depth1 >= max_depth {
                    self.depth1 = self.depth1 - max_depth;
                } else {
                    self.depth1 = 0;
                }
                let ret = self.init_phase2_pre(db);
                if self.depth1 + max_depth <= 31 {
                    self.depth1 = self.depth1 + max_depth;
                }
                return -(ret as i32);
            } else {
                return -1;
            }
        }
        if max_depth == 0 {
            return -1;
        }
        let mut turns = TurnIterator::new(lm);
        loop
            invariant
                search_wf(self),
                max_depth <= 31,
                max_depth >= 1,
            decreases turns.turn_mask,
        {
            let next_turn = turns.next();
            match next_turn {
                None => {
                    break ;
                },
                Some(t) => {
                    let turn = Turn(t);
                    let mut next = Phase1Cube::default();
                    next.twist = node.twist.turn(db, turn);
                    next.twistc = node.twistc.turn(db, turn.conjugate(db));
                    next.flip = node.flip.turn(db, turn);
                    next.flipc = node.flipc.turn(db, turn.conjugate(db));
                    let a1 = super::coord::prune_twist_flip(db, next.twistc, next.flipc) as i32;
                    let a2 = super::coord::prune_twist_flip(db, next.twist, next.flip) as i32;
                    let px1 = if a1 > a2 {
                        a1
                    } else {
                        a2
                    };
                    let prun = max_depth as i32 - px1 - 1;
                    if prun == -1 {
                        continue ;
                    }
                    if prun <= -2 {
                        turns.skip_turn_axis(turn.0);
                        continue ;
                    }
                    next.slice = node.slice.turn(db, turn);
                    let b1 = next.p2(db);
                    let b2 = next.p1(db);
                    let px3 = if b1 > b2 {
                        b1
                    } else {
                        b2
                    };
                    let prun2 = max_depth as i32 - px3 - 1;
                    if prun2 == -1 {
                        continue ;
                    }
                    if prun2 <= -2 {
                        turns.skip_turn_axis(turn.0);
                        continue ;
                    }
                    let pxm = if px1 > px3 {
                        px1
                    } else {
                        px3
                    };
                    next.prun = (pxm % 16) as i8;
                    if self.depth1 >= max_depth {
                        let slot = (self.depth1 - max_depth) as usize;
                        set31(&mut self.moves, slot, turn.0);
                    }
                    let axis = (turn.0 as i32 / 3) * 3;
                    let ret = self.phase1(db, &next, max_depth - 1, axis);
                    if ret == -1 {
                        continue ;
                    }
                    if ret <= -2 {
                        turns.skip_turn_axis(turn.0);
                        continue ;
                    }
                    return 0;
                },
            }
        }
        -1
    }

    /// The phase-2 depth-first descent within the ten-move subgroup.
    fn phase2(&mut self, db: &CubeTable, cube: Phase2Cube, max_depth: i32, depth: u32) -> (r: i32)
        requires
            search_wf(old(self)),
            max_depth >= 0,
        ensures
            search_wf(final (self)),
        decreases max_depth,
    {
        if cube.is_solved() {
            return max_depth;
        }
        if max_depth == 0 {
            return -1;
        }
        let mut turns = UDTurnIterator::new(cube.last_turn);
        loop
            invariant
                search_wf(self),
                max_depth >= 1,
            decreases turns.turn_mask,
        {
            let next_turn = turns.next();
            match next_turn {
                None => {
                    break ;
                },
                Some(turn) => {
                    let next_cube = cube.turn(db, turn);
                    let e1 = max_depth - next_cube.prune_direct(db) - 1;
                    if e1 == -1 {
                        continue ;
                    }
                    if e1 == -2 {
                        turns.skip_turn_axis(turn);
                        continue ;
                    }
                    if e1 <= -3 {
                        return e1 + 2;
                    }
                    let e2 = max_depth - next_cube.prune_inverse(db) - 1;
                    if e2 == -1 {
                        continue ;
                    }
                    if e2 == -2 {
                        turns.skip_turn_axis(turn);
                        continue ;
                    }
                    if e2 <= -3 {
                        return e2 + 2;
                    }
                    let dnext = if depth < 0xffff_0000 {
                        depth + 1
                    } else {
                        depth
                    };
                    let remaining = self.phase2(db, next_cube, max_depth - 1, dnext);
                    if remaining == -1 {
                        continue ;
                    }
                    if remaining == -2 {
                        turns.skip_turn_axis(turn);
                        continue ;
                    }
                    if remaining <= -3 {
                        return remaining + 2;
                    }
                    let t = Turn::from_ud(turn);
                    set31(&mut self.moves, (depth % 32) as usize, t.0);
                    return remaining;
                },
            }
        }
        -1
    }
}

} // verus!
