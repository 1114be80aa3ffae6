//! The move buffer a search fills, and its re-expression through the
//! chosen whole-cube re-orientation.
use super::cube::{urf_move, urf_move_spec};
use vstd::prelude::*;

verus! {

/// A found solution: up to 31 phase-1 ordinals plus the re-orientation
/// they were searched under.
pub struct Solution {
    pub len: u32,
    pub depth: u32,
    pub verbose: u32,
    pub urf_idx: u32,
    pub moves: [u8; 31],
}

impl Default for Solution {
    fn default() -> (r: Solution)
        ensures
            r.len == 0,
    {
        Solution { len: 0, depth: 0, verbose: 0, urf_idx: 0, moves: [0; 31] }
    }
}

impl Solution {
    /// Records the frame the solution was found in.
    pub fn set_args(&mut self, verbose: u32, urf_idx: u32, depth: u32)
        ensures
            final (self).verbose == verbose,
            final (self).urf_idx == urf_idx,
            final (self).depth == depth,
            final (self).len == old(self).len,
            final (self).moves == old(self).moves,
    {
        self.verbose = verbose;
        self.urf_idx = urf_idx;
        self.depth = depth;
    }

    /// The recorded ordinals, renamed out of the search frame; for the
    /// inverted frames the order is reversed.
    pub fn to_vec(&self) -> (r: Vec<u8>)
        ensures
            r@.len() == (if self.len <= 31 {
                self.len as int
            } else {
                31
            }),
            forall|i: int| 0 <= i < r@.len() ==> r@[i] < 18,
            self.urf_idx < 3 ==> forall|i: int|
                0 <= i < r@.len() ==> r@[i] as int == (if (self.moves[i] as int) < 18 {
                    urf_move_spec(self.urf_idx as int, self.moves[i] as int)
                } else {
                    0int
                }),
            3 <= self.urf_idx < 6 ==> forall|i: int|
                0 <= i < r@.len() ==> r@[i] as int == (if (self.moves[r@.len() - 1 - i] as int)
                    < 18 {
                    urf_move_spec(self.urf_idx as int, self.moves[r@.len() - 1 - i] as int)
                } else {
                    0int
                }),
    {
        let n = if self.len <= 31 {
            self.len as usize
        } else {
            31
        };
        let mut out: Vec<u8> = Vec::new();
        if self.urf_idx < 3 {
            let mut i: usize = 0;
            while i < n
                invariant
                    i <= n <= 31,
                    self.urf_idx < 3,
                    out@.len() == i,
                    forall|j: int| 0 <= j < out@.len() ==> out@[j] < 18,
                    forall|j: int|
                        0 <= j < out@.len() ==> out@[j] as int == (if (self.moves[j] as int)
                            < 18 {
                            urf_move_spec(self.urf_idx as int, self.moves[j] as int)
                        } else {
                            0int
                        }),
                decreases n - i,
            {
                out.push(urf_move(self.urf_idx as usize, self.moves[i] as usize));
                i = i + 1;
            }
        } else {
            let mut i: usize = n;
            while i > 0
                invariant
                    i <= n <= 31,
                    self.urf_idx >= 3,
                    out@.len() == n - i,
                    forall|j: int| 0 <= j < out@.len() ==> out@[j] < 18,
                    self.urf_idx < 6 ==> forall|j: int|
                        0 <= j < out@.len() ==> out@[j] as int == (if (self.moves[n - 1 - j] as int) < 18 {
                            urf_move_spec(self.urf_idx as int, self.moves[n - 1 - j] as int)
                        } else {
                            0int
                        }),
                decreases i,
            {
                i = i - 1;
                out.push(urf_move(self.urf_idx as usize, self.moves[i] as usize));
            }
        }
        out
    }

    /// Appends one ordinal; a full buffer drops the move.
    pub fn push(&mut self, cmove: u32)
        ensures
            final (self).len <= 31,
            final (self).depth == old(self).depth,
            final (self).verbose == old(self).verbose,
            final (self).urf_idx == old(self).urf_idx,
            old(self).len < 31 ==> final (self).len == old(self).len + 1 && final (self).moves@
                == old(self).moves@.update(old(self).len as int, (cmove % 256) as u8),
            old(self).len >= 31 ==> final (self).len == 31 && final (self).moves == old(
                self,
            ).moves,
    {
        if self.len < 31 {
            self.moves[self.len as usize] = (cmove % 256) as u8;
            self.len = self.len + 1;
        } else {
            self.len = 31;
        }
    }
}

} // verus!
