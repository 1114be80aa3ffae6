//! Shared helpers of the two-phase solver: the move-ordinal maps between
//! the standard and the phase-2 orders, binomial coefficients, and the
//! permutation and combination coordinates on plain piece arrays.
//!
//! Every table read in the solver goes through a guarded accessor that
//! returns a default outside the table, so no lookup can fail.
use vstd::prelude::*;

verus! {

/// The 18 phase-1 move ordinals in the phase-2 ordering: the ten moves
/// that preserve the phase-1 subgroup come first.
pub fn ud2std(j: usize) -> (r: u8)
    ensures
        r < 18,
{
    let t: [u8; 18] = [0, 1, 2, 4, 7, 9, 10, 11, 13, 16, 3, 5, 6, 8, 12, 14, 15, 17];
    if j < 18 {
        t[j]
    } else {
        0
    }
}

/// The inverse map: each standard ordinal's place in the phase-2 order.
pub fn std2ud(j: usize) -> (r: u8)
    ensures
        r < 18,
{
    let t: [u8; 18] = [0, 1, 2, 10, 3, 11, 12, 4, 13, 5, 6, 7, 14, 8, 15, 16, 9, 17];
    if j < 18 {
        t[j]
    } else {
        0
    }
}

/// The bitmask of phase-2 moves that a previous phase-2 move makes
/// redundant.
pub fn ckmv2bit(j: usize) -> (r: u16) {
    let t: [u16; 11] = [7, 7, 7, 8, 16, 231, 231, 231, 264, 528, 0];
    if j < 11 {
        t[j]
    } else {
        0
    }
}

/// Binomial coefficient from the fixed 13x13 table.
pub fn cnk(n: usize, r: usize) -> (v: u32)
    ensures
        v <= 924,
{
    let t0: [u32; 13] = [1, 0, 0, 0, 0, 0, 0, 0, 0, 0, 0, 0, 0];
    let t1: [u32; 13] = [1, 1, 0, 0, 0, 0, 0, 0, 0, 0, 0, 0, 0];
    let t2: [u32; 13] = [1, 2, 1, 0, 0, 0, 0, 0, 0, 0, 0, 0, 0];
    let t3: [u32; 13] = [1, 3, 3, 1, 0, 0, 0, 0, 0, 0, 0, 0, 0];
    let t4: [u32; 13] = [1, 4, 6, 4, 1, 0, 0, 0, 0, 0, 0, 0, 0];
    let t5: [u32; 13] = [1, 5, 10, 10, 5, 1, 0, 0, 0, 0, 0, 0, 0];
    let t6: [u32; 13] = [1, 6, 15, 20, 15, 6, 1, 0, 0, 0, 0, 0, 0];
    let t7: [u32; 13] = [1, 7, 21, 35, 35, 21, 7, 1, 0, 0, 0, 0, 0];
    let t8: [u32; 13] = [1, 8, 28, 56, 70, 56, 28, 8, 1, 0, 0, 0, 0];
    let t9: [u32; 13] = [1, 9, 36, 84, 126, 126, 84, 36, 9, 1, 0, 0, 0];
    let t10: [u32; 13] = [1, 10, 45, 120, 210, 252, 210, 120, 45, 10, 1, 0, 0];
    let t11: [u32; 13] = [1, 11, 55, 165, 330, 462, 462, 330, 165, 55, 11, 1, 0];
    let t12: [u32; 13] = [1, 12, 66, 220, 495, 792, 924, 792, 495, 220, 66, 12, 1];
    if n < 13 && r < 13 {
        let row = if n == 0 {
            t0
        } else if n == 1 {
            t1
        } else if n == 2 {
            t2
        } else if n == 3 {
            t3
        } else if n == 4 {
            t4
        } else if n == 5 {
            t5
        } else if n == 6 {
            t6
        } else if n == 7 {
            t7
        } else if n == 8 {
            t8
        } else if n == 9 {
            t9
        } else if n == 10 {
            t10
        } else if n == 11 {
            t11
        } else {
            t12
        };
        proof {
            assert(forall|k: int| 0 <= k < 13 ==> row@[k] <= 924);
        }
        row[r]
    } else {
        0
    }
}

/// Guarded read of a `u8` table.
pub fn g8(t: &Vec<u8>, i: usize) -> (r: u8)
    ensures
        i < t@.len() ==> r == t@[i as int],
        i >= t@.len() ==> r == 0,
{
    if i < t.len() {
        t[i]
    } else {
        0
    }
}

/// Guarded read of a `u16` table.
pub fn g16(t: &Vec<u16>, i: usize) -> (r: u16)
    ensures
        i < t@.len() ==> r == t@[i as int],
        i >= t@.len() ==> r == 0,
{
    if i < t.len() {
        t[i]
    } else {
        0
    }
}

/// Guarded read of a `u32` table.
pub fn g32(t: &Vec<u32>, i: usize) -> (r: u32)
    ensures
        i < t@.len() ==> r == t@[i as int],
        i >= t@.len() ==> r == 0,
{
    if i < t.len() {
        t[i]
    } else {
        0
    }
}

/// Guarded read of a `u64` table.
pub fn g64(t: &Vec<u64>, i: usize) -> (r: u64)
    ensures
        i < t@.len() ==> r == t@[i as int],
        i >= t@.len() ==> r == 0,
{
    if i < t.len() {
        t[i]
    } else {
        0
    }
}

/// Guarded read of a two-dimensional `u8` table.
pub fn g8x(t: &Vec<Vec<u8>>, i: usize, j: usize) -> (r: u8)
    ensures
        i < t@.len() && j < t@[i as int]@.len() ==> r == t@[i as int]@[j as int],
{
    if i < t.len() {
        let row = &t[i];
        if j < row.len() {
            row[j]
        } else {
            0
        }
    } else {
        0
    }
}

/// Guarded read of a two-dimensional `u16` table.
pub fn g16x(t: &Vec<Vec<u16>>, i: usize, j: usize) -> (r: u16)
    ensures
        i < t@.len() && j < t@[i as int]@.len() ==> r == t@[i as int]@[j as int],
{
    if i < t.len() {
        let row = &t[i];
        if j < row.len() {
            row[j]
        } else {
            0
        }
    } else {
        0
    }
}

/// Guarded write to a `u8` table; out-of-range writes are dropped.
pub fn p8(t: &mut Vec<u8>, i: usize, v: u8)
    ensures
        final (t)@.len() == old(t)@.len(),
        i < old(t)@.len() ==> final (t)@ == old(t)@.update(i as int, v),
        i >= old(t)@.len() ==> final (t)@ == old(t)@,
{
    if i < t.len() {
        t.set(i, v);
    }
}

/// Guarded write to a `u16` table; out-of-range writes are dropped.
pub fn p16(t: &mut Vec<u16>, i: usize, v: u16)
    ensures
        final (t)@.len() == old(t)@.len(),
        i < old(t)@.len() ==> final (t)@ == old(t)@.update(i as int, v),
        i >= old(t)@.len() ==> final (t)@ == old(t)@,
{
    if i < t.len() {
        t.set(i, v);
    }
}

/// Guarded write to a `u32` table; out-of-range writes are dropped.
pub fn p32(t: &mut Vec<u32>, i: usize, v: u32)
    ensures
        final (t)@.len() == old(t)@.len(),
        i < old(t)@.len() ==> final (t)@ == old(t)@.update(i as int, v),
        i >= old(t)@.len() ==> final (t)@ == old(t)@,
{
    if i < t.len() {
        t.set(i, v);
    }
}

/// Guarded write to a `u64` table; out-of-range writes are dropped.
pub fn p64(t: &mut Vec<u64>, i: usize, v: u64)
    ensures
        final (t)@.len() == old(t)@.len(),
        i < old(t)@.len() ==> final (t)@ == old(t)@.update(i as int, v),
        i >= old(t)@.len() ==> final (t)@ == old(t)@,
{
    if i < t.len() {
        t.set(i, v);
    }
}

/// Guarded write to a two-dimensional `u8` table.
pub fn p8x(t: &mut Vec<Vec<u8>>, i: usize, j: usize, v: u8)
    ensures
        final (t)@.len() == old(t)@.len(),
        forall|k: int| 0 <= k < old(t)@.len() ==> final (t)@[k]@.len() == old(t)@[k]@.len(),
        i < old(t)@.len() && j < old(t)@[i as int]@.len() ==> final (t)@[i as int]@[j as int] == v,
        forall|a: int, b: int|
            0 <= a < old(t)@.len() && 0 <= b < old(t)@[a]@.len() && !(a == i && b == j)
                ==> final (t)@[a]@[b] == old(t)@[a]@[b],
{
    if i < t.len() {
        let row = &mut t[i];
        if j < row.len() {
            row.set(j, v);
        }
    }
}

/// Guarded write to a two-dimensional `u16` table.
pub fn p16x(t: &mut Vec<Vec<u16>>, i: usize, j: usize, v: u16)
    ensures
        final (t)@.len() == old(t)@.len(),
        forall|k: int| 0 <= k < old(t)@.len() ==> final (t)@[k]@.len() == old(t)@[k]@.len(),
        i < old(t)@.len() && j < old(t)@[i as int]@.len() ==> final (t)@[i as int]@[j as int] == v,
        forall|a: int, b: int|
            0 <= a < old(t)@.len() && 0 <= b < old(t)@[a]@.len() && !(a == i && b == j)
                ==> final (t)@[a]@[b] == old(t)@[a]@[b],
{
    if i < t.len() {
        let row = &mut t[i];
        if j < row.len() {
            row.set(j, v);
        }
    }
}

/// A new table of zeros.
pub fn zeros16(n: usize) -> (r: Vec<u16>)
    ensures
        r@.len() == n,
        forall|i: int| 0 <= i < n ==> r@[i] == 0,
{
    let mut v: Vec<u16> = Vec::new();
    let mut i: usize = 0;
    while i < n
        invariant
            i <= n,
            v@.len() == i,
            forall|j: int| 0 <= j < i ==> v@[j] == 0,
        decreases n - i,
    {
        v.push(0);
        i = i + 1;
    }
    v
}

/// A new table of zeros.
pub fn zeros32(n: usize) -> (r: Vec<u32>)
    ensures
        r@.len() == n,
        forall|i: int| 0 <= i < n ==> r@[i] == 0,
{
    let mut v: Vec<u32> = Vec::new();
    let mut i: usize = 0;
    while i < n
        invariant
            i <= n,
            v@.len() == i,
            forall|j: int| 0 <= j < i ==> v@[j] == 0,
        decreases n - i,
    {
        v.push(0);
        i = i + 1;
    }
    v
}

/// A new table of zeros.
pub fn zeros64(n: usize) -> (r: Vec<u64>)
    ensures
        r@.len() == n,
        forall|i: int| 0 <= i < n ==> r@[i] == 0,
{
    let mut v: Vec<u64> = Vec::new();
    let mut i: usize = 0;
    while i < n
        invariant
            i <= n,
            v@.len() == i,
            forall|j: int| 0 <= j < i ==> v@[j] == 0,
        decreases n - i,
    {
        v.push(0);
        i = i + 1;
    }
    v
}

/// A new two-dimensional table of zeros.
pub fn zeros8x(rows: usize, cols: usize) -> (r: Vec<Vec<u8>>)
    ensures
        r@.len() == rows,
        forall|i: int| 0 <= i < rows ==> r@[i]@.len() == cols,
{
    let mut v: Vec<Vec<u8>> = Vec::new();
    let mut i: usize = 0;
    while i < rows
        invariant
            i <= rows,
            v@.len() == i,
            forall|j: int| 0 <= j < i ==> v@[j]@.len() == cols,
        decreases rows - i,
    {
        v.push(zeros8(cols));
        i = i + 1;
    }
    v
}

/// A new two-dimensional table of zeros.
pub fn zeros16x(rows: usize, cols: usize) -> (r: Vec<Vec<u16>>)
    ensures
        r@.len() == rows,
        forall|i: int| 0 <= i < rows ==> r@[i]@.len() == cols,
{
    let mut v: Vec<Vec<u16>> = Vec::new();
    let mut i: usize = 0;
    while i < rows
        invariant
            i <= rows,
            v@.len() == i,
            forall|j: int| 0 <= j < i ==> v@[j]@.len() == cols,
        decreases rows - i,
    {
        v.push(zeros16(cols));
        i = i + 1;
    }
    v
}

/// Whether a packed array value is read shifted (edges) or masked
/// (corners).
pub fn get_val(val0: u32, is_edge: bool) -> (r: u32)
    ensures
        is_edge ==> r == val0 / 2,
        !is_edge ==> r == val0 % 8,
        r <= val0,
{
    if is_edge {
        val0 / 2
    } else {
        val0 % 8
    }
}

/// Writes a value into a packed array entry, preserving the other field.
pub fn set_val(val0: u32, val: u32, is_edge: bool) -> (r: u32)
    requires
        val < 16,
        val0 < 256,
    ensures
        r < 256,
{
    if is_edge {
        val * 2 + val0 % 2
    } else {
        val % 8 + (val0 / 8) * 8
    }
}

/// The sign of the permutation with index `idx` over `n` places.
pub fn get_parity(idx0: u32, n: u32) -> (r: u32)
    requires
        1 <= n <= 12,
    ensures
        r < 2,
{
    let mut p: u32 = 0;
    let mut idx = idx0;
    let mut i: u32 = n - 1;
    while i > 0
        invariant
            i < n,
            n <= 12,
            p < 2,
        decreases i,
    {
        let d = n - i + 1;
        p = (p + idx % d) % 2;
        idx = idx / d;
        i = i - 1;
    }
    p % 2
}

/// The Lehmer-code permutation index of the packed piece array: how far
/// each piece stands from its sorted place, read in the factorial number
/// system.
pub fn get_perm(arr: &Vec<u8>, is_edge: bool) -> (r: u32)
    requires
        arr@.len() <= 12,
{
    let n = arr.len();
    if n == 0 {
        return 0;
    }
    let mut idx: u64 = 0;
    let mut i: usize = 0;
    while i < n - 1
        invariant
            n == arr@.len(),
            1 <= n <= 12,
            i <= n - 1,
            idx <= 0xffff_ffff_ffff,
        decreases n - i,
    {
        let vi = get_val(arr[i] as u32, is_edge) % 16;
        let mut cnt: u64 = 0;
        let mut j: usize = i + 1;
        while j < n
            invariant
                n == arr@.len(),
                i < j <= n <= 12,
                cnt <= j - i - 1,
            decreases n - j,
        {
            let vj = get_val(arr[j] as u32, is_edge) % 16;
            if vj < vi {
                cnt = cnt + 1;
            }
            j = j + 1;
        }
        proof {
            assert(idx * ((n - i) as u64) <= 0xffff_ffff_ffff * 12) by (nonlinear_arith)
                requires
                    idx <= 0xffff_ffff_ffff,
                    2 <= n - i <= 12,
            ;
        }
        idx = idx * ((n - i) as u64) + cnt;
        if idx > 0xffff_ffff_ffff {
            idx = 0;
        }
        i = i + 1;
    }
    if idx <= 0xffff_ffff {
        idx as u32
    } else {
        0
    }
}

/// Writes the permutation with the given index into the packed array,
/// preserving each entry's other field.
pub fn set_perm(arr: &mut Vec<u8>, idx0: u32, is_edge: bool)
    requires
        old(arr)@.len() <= 12,
    ensures
        final (arr)@.len() == old(arr)@.len(),
{
    let n = arr.len();
    if n == 0 {
        return ;
    }
    let mut avail: Vec<u8> = Vec::new();
    let mut t: u8 = 0;
    while (t as usize) < n
        invariant
            n <= 12,
            avail@.len() == t as int,
            t as int <= n,
        decreases n - t as int,
    {
        avail.push(t);
        t = t + 1;
    }
    let mut fw: u64 = 1;
    let mut k: usize = 1;
    while k < n
        invariant
            n <= 12,
            k <= n,
            fw >= 1,
            fw <= 479001600,
        decreases n - k,
    {
        if fw <= 39916800 {
            proof {
                assert(fw * ((k + 1) as u64) >= 1 && fw * ((k + 1) as u64) <= 479001600)
                    by (nonlinear_arith)
                    requires
                        1 <= fw <= 39916800,
                        1 <= k + 1 <= 12,
                ;
            }
            fw = fw * (k as u64 + 1);
        }
        k = k + 1;
    }
    let mut rem: u64 = idx0 as u64;
    let mut i: usize = 0;
    while i < n
        invariant
            n == arr@.len(),
            n <= 12,
            i <= n,
            avail@.len() == n - i,
            fw >= 1,
        decreases n - i,
    {
        proof {
            assert(avail@.len() > 0);
        }
        fw = fw / ((n - i) as u64);
        if fw == 0 {
            fw = 1;
        }
        let di = ((rem / fw) % (avail.len() as u64)) as usize;
        rem = rem % fw;
        let v = avail.remove(di);
        let old0 = g8v(arr, i) as u32;
        let nv = set_val(old0, (v as u32) % 16, is_edge);
        p8(arr, i, (nv % 256) as u8);
        i = i + 1;
    }
}

/// Guarded read of a `u8` table (by value).
pub fn g8v(t: &Vec<u8>, i: usize) -> (r: u8)
    ensures
        i < t@.len() ==> r == t@[i as int],
        i >= t@.len() ==> r == 0,
{
    if i < t.len() {
        t[i]
    } else {
        0
    }
}

/// The index of the 4-piece combination held in the entries whose high
/// field matches `mask`.
pub fn get_comb(arr: &Vec<u8>, mask: u32, is_edge: bool) -> (r: u32)
    requires
        arr@.len() <= 12,
    ensures
        r <= 924 * 4,
{
    let n = arr.len();
    let mut rr: u32 = 4;
    let mut idxc: u32 = 0;
    let mut i: usize = n;
    while i > 0
        invariant
            n == arr@.len(),
            n <= 12,
            i <= n,
            rr <= 4,
            idxc <= 924 * 4,
        decreases i,
    {
        i = i - 1;
        let perm = get_val(arr[i] as u32, is_edge) % 16;
        if (perm / 4) * 4 == mask && rr > 0 {
            if idxc <= 924 * 3 {
                idxc = idxc + cnk(i, rr as usize);
            }
            rr = rr - 1;
        }
    }
    idxc
}

/// Writes the 4-piece combination with the given index into the packed
/// array.
pub fn set_comb(arr: &mut Vec<u8>, idxc0: u32, mask: u32, is_edge: bool)
    requires
        old(arr)@.len() <= 12,
    ensures
        final (arr)@.len() == old(arr)@.len(),
{
    let n = arr.len();
    if n == 0 {
        return ;
    }
    let mut rr: u32 = 4;
    let mut fill: i32 = (n - 1) as i32;
    let mut idxc = idxc0;
    let mut i: usize = n;
    while i > 0
        invariant
            n == arr@.len(),
            1 <= n <= 12,
            i <= n,
            rr <= 4,
            -100 <= fill < 12,
        decreases i,
    {
        i = i - 1;
        let c = cnk(i, rr as usize);
        if idxc >= c && rr > 0 {
            idxc = idxc - c;
            rr = rr - 1;
            let old0 = g8v(arr, i) as u32;
            let nv = set_val(old0, (rr | mask) % 16, is_edge);
            p8(arr, i, (nv % 256) as u8);
        } else {
            if fill >= 0 && ((fill as u32) / 4) % 4 * 4 == mask {
                fill = fill - 4;
            }
            let old0 = g8v(arr, i) as u32;
            let fv = if fill >= 0 {
                (fill as u32) % 16
            } else {
                0
            };
            let nv = set_val(old0, fv, is_edge);
            p8(arr, i, (nv % 256) as u8);
            fill = fill - 1;
            if fill < -90 {
                fill = -90;
            }
        }
    }
}

/// A new table of zeros.
pub fn zeros8(n: usize) -> (r: Vec<u8>)
    ensures
        r@.len() == n,
        forall|i: int| 0 <= i < n ==> r@[i] == 0,
{
    let mut v: Vec<u8> = Vec::new();
    let mut i: usize = 0;
    while i < n
        invariant
            i <= n,
            v@.len() == i,
            forall|j: int| 0 <= j < i ==> v@[j] == 0,
        decreases n - i,
    {
        v.push(0);
        i = i + 1;
    }
    v
}

} // verus!
