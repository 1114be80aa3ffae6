//! The move catalog: the 54 named generators of cube motion, their
//! powers and frames, and the 24 whole-cube rotations, all expressed as
//! group elements.
use crate::cube::center::{center_get_spec, center_pack3, center_wf, cg, CenterMap};
use crate::cube::corner::{cm_mul_spec, corner_pack8, corner_pack, CornerMap};
use crate::cube::edge::{edge_pack12, edge_pack, em_mul_spec, EdgeMap};
use crate::cube::center::center_pack;
use crate::cube::{cc_centers_spec, cc_corners_spec, cube_mul_spec, cube_valid, cube_wf, CenteredCornerMap,
    Cube, FixedCentersCube};
use crate::cube::corner::cori_sum;
use crate::{face_from_index_spec, face_index_spec, Face, MapError};
use vstd::prelude::*;

verus! {

/// The three powers of a quarter turn.
#[derive(Clone, Copy, Debug, PartialEq, Eq, Structural)]
pub enum MoveAngle {
    Cw,
    Two,
    Ccw,
}

pub open spec fn angle_index_spec(a: MoveAngle) -> u64 {
    match a {
        MoveAngle::Cw => 0,
        MoveAngle::Two => 1,
        MoveAngle::Ccw => 2,
    }
}

impl MoveAngle {
    /// The ordinal of this angle, `0..3`.
    pub fn index(self) -> (r: u8)
        ensures
            r == angle_index_spec(self),
            r < 3,
    {
        match self {
            MoveAngle::Cw => 0,
            MoveAngle::Two => 1,
            MoveAngle::Ccw => 2,
        }
    }

    /// The angle with the given ordinal.
    pub fn from_index(v: u8) -> (r: MoveAngle)
        requires
            v < 3,
        ensures
            angle_index_spec(r) == v,
    {
        if v == 0 {
            MoveAngle::Cw
        } else if v == 1 {
            MoveAngle::Two
        } else {
            MoveAngle::Ccw
        }
    }
}

/// What layer a move turns: an outer face, an inner slice, the whole
/// cube, or a two-layer wide turn.
#[derive(Clone, Copy, Debug, PartialEq, Eq, Structural)]
pub enum MoveKind {
    Face,
    Slice,
    Rotation,
    Wide,
}

pub open spec fn kind_index_spec(k: MoveKind) -> u64 {
    match k {
        MoveKind::Face => 0,
        MoveKind::Slice => 1,
        MoveKind::Rotation => 2,
        MoveKind::Wide => 3,
    }
}

/// One of the 54 named generators: 18 face turns, 9 slice turns, 9
/// whole-cube rotations and 18 wide turns.
#[derive(Clone, Copy, Debug, PartialEq, Eq, Structural, Hash)]
pub enum Move {
    U1,
    U2,
    U3,
    D1,
    D2,
    D3,
    F1,
    F2,
    F3,
    B1,
    B2,
    B3,
    R1,
    R2,
    R3,
    L1,
    L2,
    L3,
    E1,
    E2,
    E3,
    S1,
    S2,
    S3,
    M1,
    M2,
    M3,
    Y1,
    Y2,
    Y3,
    Z1,
    Z2,
    Z3,
    X1,
    X2,
    X3,
    Uw1,
    Uw2,
    Uw3,
    Dw1,
    Dw2,
    Dw3,
    Fw1,
    Fw2,
    Fw3,
    Bw1,
    Bw2,
    Bw3,
    Rw1,
    Rw2,
    Rw3,
    Lw1,
    Lw2,
    Lw3,
}

pub open spec fn move_index_spec(m: Move) -> u64 {
    match m {
        Move::U1 => 0,
        Move::U2 => 1,
        Move::U3 => 2,
        Move::D1 => 3,
        Move::D2 => 4,
        Move::D3 => 5,
        Move::F1 => 6,
        Move::F2 => 7,
        Move::F3 => 8,
        Move::B1 => 9,
        Move::B2 => 10,
        Move::B3 => 11,
        Move::R1 => 12,
        Move::R2 => 13,
        Move::R3 => 14,
        Move::L1 => 15,
        Move::L2 => 16,
        Move::L3 => 17,
        Move::E1 => 18,
        Move::E2 => 19,
        Move::E3 => 20,
        Move::S1 => 21,
        Move::S2 => 22,
        Move::S3 => 23,
        Move::M1 => 24,
        Move::M2 => 25,
        Move::M3 => 26,
        Move::Y1 => 27,
        Move::Y2 => 28,
        Move::Y3 => 29,
        Move::Z1 => 30,
        Move::Z2 => 31,
        Move::Z3 => 32,
        Move::X1 => 33,
        Move::X2 => 34,
        Move::X3 => 35,
        Move::Uw1 => 36,
        Move::Uw2 => 37,
        Move::Uw3 => 38,
        Move::Dw1 => 39,
        Move::Dw2 => 40,
        Move::Dw3 => 41,
        Move::Fw1 => 42,
        Move::Fw2 => 43,
        Move::Fw3 => 44,
        Move::Bw1 => 45,
        Move::Bw2 => 46,
        Move::Bw3 => 47,
        Move::Rw1 => 48,
        Move::Rw2 => 49,
        Move::Rw3 => 50,
        Move::Lw1 => 51,
        Move::Lw2 => 52,
        Move::Lw3 => 53,
    }
}

pub open spec fn move_from_index_spec(v: u64) -> Move
    recommends
        v < 54,
{
    if v == 0 {
        Move::U1
    } else if v == 1 {
        Move::U2
    } else if v == 2 {
        Move::U3
    } else if v == 3 {
        Move::D1
    } else if v == 4 {
        Move::D2
    } else if v == 5 {
        Move::D3
    } else if v == 6 {
        Move::F1
    } else if v == 7 {
        Move::F2
    } else if v == 8 {
        Move::F3
    } else if v == 9 {
        Move::B1
    } else if v == 10 {
        Move::B2
    } else if v == 11 {
        Move::B3
    } else if v == 12 {
        Move::R1
    } else if v == 13 {
        Move::R2
    } else if v == 14 {
        Move::R3
    } else if v == 15 {
        Move::L1
    } else if v == 16 {
        Move::L2
    } else if v == 17 {
        Move::L3
    } else if v == 18 {
        Move::E1
    } else if v == 19 {
        Move::E2
    } else if v == 20 {
        Move::E3
    } else if v == 21 {
        Move::S1
    } else if v == 22 {
        Move::S2
    } else if v == 23 {
        Move::S3
    } else if v == 24 {
        Move::M1
    } else if v == 25 {
        Move::M2
    } else if v == 26 {
        Move::M3
    } else if v == 27 {
        Move::Y1
    } else if v == 28 {
        Move::Y2
    } else if v == 29 {
        Move::Y3
    } else if v == 30 {
        Move::Z1
    } else if v == 31 {
        Move::Z2
    } else if v == 32 {
        Move::Z3
    } else if v == 33 {
        Move::X1
    } else if v == 34 {
        Move::X2
    } else if v == 35 {
        Move::X3
    } else if v == 36 {
        Move::Uw1
    } else if v == 37 {
        Move::Uw2
    } else if v == 38 {
        Move::Uw3
    } else if v == 39 {
        Move::Dw1
    } else if v == 40 {
        Move::Dw2
    } else if v == 41 {
        Move::Dw3
    } else if v == 42 {
        Move::Fw1
    } else if v == 43 {
        Move::Fw2
    } else if v == 44 {
        Move::Fw3
    } else if v == 45 {
        Move::Bw1
    } else if v == 46 {
        Move::Bw2
    } else if v == 47 {
        Move::Bw3
    } else if v == 48 {
        Move::Rw1
    } else if v == 49 {
        Move::Rw2
    } else if v == 50 {
        Move::Rw3
    } else if v == 51 {
        Move::Lw1
    } else if v == 52 {
        Move::Lw2
    } else {
        Move::Lw3
    }
}

/// A move of one outer face: the subset of `Move` that leaves the
/// centers in place, used by the types that do not track centers.
#[derive(Clone, Copy, Debug, PartialEq, Eq, Structural, Hash)]
pub enum FaceMove {
    U1,
    U2,
    U3,
    D1,
    D2,
    D3,
    F1,
    F2,
    F3,
    B1,
    B2,
    B3,
    R1,
    R2,
    R3,
    L1,
    L2,
    L3,
}

pub open spec fn facemove_index_spec(m: FaceMove) -> u64 {
    match m {
        FaceMove::U1 => 0,
        FaceMove::U2 => 1,
        FaceMove::U3 => 2,
        FaceMove::D1 => 3,
        FaceMove::D2 => 4,
        FaceMove::D3 => 5,
        FaceMove::F1 => 6,
        FaceMove::F2 => 7,
        FaceMove::F3 => 8,
        FaceMove::B1 => 9,
        FaceMove::B2 => 10,
        FaceMove::B3 => 11,
        FaceMove::R1 => 12,
        FaceMove::R2 => 13,
        FaceMove::R3 => 14,
        FaceMove::L1 => 15,
        FaceMove::L2 => 16,
        FaceMove::L3 => 17,
    }
}

pub open spec fn facemove_from_index_spec(v: u64) -> FaceMove
    recommends
        v < 18,
{
    if v == 0 {
        FaceMove::U1
    } else if v == 1 {
        FaceMove::U2
    } else if v == 2 {
        FaceMove::U3
    } else if v == 3 {
        FaceMove::D1
    } else if v == 4 {
        FaceMove::D2
    } else if v == 5 {
        FaceMove::D3
    } else if v == 6 {
        FaceMove::F1
    } else if v == 7 {
        FaceMove::F2
    } else if v == 8 {
        FaceMove::F3
    } else if v == 9 {
        FaceMove::B1
    } else if v == 10 {
        FaceMove::B2
    } else if v == 11 {
        FaceMove::B3
    } else if v == 12 {
        FaceMove::R1
    } else if v == 13 {
        FaceMove::R2
    } else if v == 14 {
        FaceMove::R3
    } else if v == 15 {
        FaceMove::L1
    } else if v == 16 {
        FaceMove::L2
    } else {
        FaceMove::L3
    }
}

/// The group element of each of the 54 moves.
pub open spec fn move_cube_spec(m: Move) -> Cube {
    match m {
        Move::U1 => Cube { centered_corners: CenteredCornerMap { raw: (corner_pack8(4, 1, 0, 3, 6, 5, 2, 7) | center_pack3(0, 2, 4)) }, edges: EdgeMap { set: edge_pack12(8, 1, 10, 3, 4, 5, 6, 7, 2, 9, 0, 11) } },
        Move::U2 => Cube { centered_corners: CenteredCornerMap { raw: (corner_pack8(6, 1, 4, 3, 2, 5, 0, 7) | center_pack3(0, 2, 4)) }, edges: EdgeMap { set: edge_pack12(2, 1, 0, 3, 4, 5, 6, 7, 10, 9, 8, 11) } },
        Move::U3 => Cube { centered_corners: CenteredCornerMap { raw: (corner_pack8(2, 1, 6, 3, 0, 5, 4, 7) | center_pack3(0, 2, 4)) }, edges: EdgeMap { set: edge_pack12(10, 1, 8, 3, 4, 5, 6, 7, 0, 9, 2, 11) } },
        Move::D1 => Cube { centered_corners: CenteredCornerMap { raw: (corner_pack8(0, 3, 2, 7, 4, 1, 6, 5) | center_pack3(0, 2, 4)) }, edges: EdgeMap { set: edge_pack12(0, 9, 2, 11, 4, 5, 6, 7, 8, 3, 10, 1) } },
        Move::D2 => Cube { centered_corners: CenteredCornerMap { raw: (corner_pack8(0, 7, 2, 5, 4, 3, 6, 1) | center_pack3(0, 2, 4)) }, edges: EdgeMap { set: edge_pack12(0, 3, 2, 1, 4, 5, 6, 7, 8, 11, 10, 9) } },
        Move::D3 => Cube { centered_corners: CenteredCornerMap { raw: (corner_pack8(0, 5, 2, 1, 4, 7, 6, 3) | center_pack3(0, 2, 4)) }, edges: EdgeMap { set: edge_pack12(0, 11, 2, 9, 4, 5, 6, 7, 8, 1, 10, 3) } },
        Move::F1 => Cube { centered_corners: CenteredCornerMap { raw: (corner_pack8(9, 21, 2, 3, 16, 12, 6, 7) | center_pack3(0, 2, 4)) }, edges: EdgeMap { set: edge_pack12(0, 1, 2, 3, 4, 26, 25, 7, 8, 21, 22, 11) } },
        Move::F2 => Cube { centered_corners: CenteredCornerMap { raw: (corner_pack8(5, 4, 2, 3, 1, 0, 6, 7) | center_pack3(0, 2, 4)) }, edges: EdgeMap { set: edge_pack12(0, 1, 2, 3, 4, 6, 5, 7, 8, 10, 9, 11) } },
        Move::F3 => Cube { centered_corners: CenteredCornerMap { raw: (corner_pack8(12, 16, 2, 3, 21, 9, 6, 7) | center_pack3(0, 2, 4)) }, edges: EdgeMap { set: edge_pack12(0, 1, 2, 3, 4, 25, 26, 7, 8, 22, 21, 11) } },
        Move::B1 => Cube { centered_corners: CenteredCornerMap { raw: (corner_pack8(0, 1, 22, 10, 4, 5, 15, 19) | center_pack3(0, 2, 4)) }, edges: EdgeMap { set: edge_pack12(0, 1, 2, 3, 27, 5, 6, 24, 20, 9, 10, 23) } },
        Move::B2 => Cube { centered_corners: CenteredCornerMap { raw: (corner_pack8(0, 1, 7, 6, 4, 5, 3, 2) | center_pack3(0, 2, 4)) }, edges: EdgeMap { set: edge_pack12(0, 1, 2, 3, 7, 5, 6, 4, 11, 9, 10, 8) } },
        Move::B3 => Cube { centered_corners: CenteredCornerMap { raw: (corner_pack8(0, 1, 19, 15, 4, 5, 10, 22) | center_pack3(0, 2, 4)) }, edges: EdgeMap { set: edge_pack12(0, 1, 2, 3, 24, 5, 6, 27, 23, 9, 10, 20) } },
        Move::R1 => Cube { centered_corners: CenteredCornerMap { raw: (corner_pack8(18, 8, 11, 17, 4, 5, 6, 7) | center_pack3(0, 2, 4)) }, edges: EdgeMap { set: edge_pack12(0, 1, 7, 6, 4, 5, 2, 3, 8, 9, 10, 11) } },
        Move::R2 => Cube { centered_corners: CenteredCornerMap { raw: (corner_pack8(3, 2, 1, 0, 4, 5, 6, 7) | center_pack3(0, 2, 4)) }, edges: EdgeMap { set: edge_pack12(0, 1, 3, 2, 4, 5, 7, 6, 8, 9, 10, 11) } },
        Move::R3 => Cube { centered_corners: CenteredCornerMap { raw: (corner_pack8(17, 11, 8, 18, 4, 5, 6, 7) | center_pack3(0, 2, 4)) }, edges: EdgeMap { set: edge_pack12(0, 1, 6, 7, 4, 5, 3, 2, 8, 9, 10, 11) } },
        Move::L1 => Cube { centered_corners: CenteredCornerMap { raw: (corner_pack8(0, 1, 2, 3, 13, 23, 20, 14) | center_pack3(0, 2, 4)) }, edges: EdgeMap { set: edge_pack12(5, 4, 2, 3, 0, 1, 6, 7, 8, 9, 10, 11) } },
        Move::L2 => Cube { centered_corners: CenteredCornerMap { raw: (corner_pack8(0, 1, 2, 3, 7, 6, 5, 4) | center_pack3(0, 2, 4)) }, edges: EdgeMap { set: edge_pack12(1, 0, 2, 3, 5, 4, 6, 7, 8, 9, 10, 11) } },
        Move::L3 => Cube { centered_corners: CenteredCornerMap { raw: (corner_pack8(0, 1, 2, 3, 14, 20, 23, 13) | center_pack3(0, 2, 4)) }, edges: EdgeMap { set: edge_pack12(4, 5, 2, 3, 1, 0, 6, 7, 8, 9, 10, 11) } },
        Move::E1 => Cube { centered_corners: CenteredCornerMap { raw: (corner_pack8(0, 1, 2, 3, 4, 5, 6, 7) | center_pack3(0, 4, 3)) }, edges: EdgeMap { set: edge_pack12(0, 1, 2, 3, 21, 22, 23, 20, 8, 9, 10, 11) } },
        Move::E2 => Cube { centered_corners: CenteredCornerMap { raw: (corner_pack8(0, 1, 2, 3, 4, 5, 6, 7) | center_pack3(0, 3, 5)) }, edges: EdgeMap { set: edge_pack12(0, 1, 2, 3, 6, 7, 4, 5, 8, 9, 10, 11) } },
        Move::E3 => Cube { centered_corners: CenteredCornerMap { raw: (corner_pack8(0, 1, 2, 3, 4, 5, 6, 7) | center_pack3(0, 5, 2)) }, edges: EdgeMap { set: edge_pack12(0, 1, 2, 3, 23, 20, 21, 22, 8, 9, 10, 11) } },
        Move::S1 => Cube { centered_corners: CenteredCornerMap { raw: (corner_pack8(0, 1, 2, 3, 4, 5, 6, 7) | center_pack3(4, 2, 1)) }, edges: EdgeMap { set: edge_pack12(18, 16, 19, 17, 4, 5, 6, 7, 8, 9, 10, 11) } },
        Move::S2 => Cube { centered_corners: CenteredCornerMap { raw: (corner_pack8(0, 1, 2, 3, 4, 5, 6, 7) | center_pack3(1, 2, 5)) }, edges: EdgeMap { set: edge_pack12(3, 2, 1, 0, 4, 5, 6, 7, 8, 9, 10, 11) } },
        Move::S3 => Cube { centered_corners: CenteredCornerMap { raw: (corner_pack8(0, 1, 2, 3, 4, 5, 6, 7) | center_pack3(5, 2, 0)) }, edges: EdgeMap { set: edge_pack12(17, 19, 16, 18, 4, 5, 6, 7, 8, 9, 10, 11) } },
        Move::M1 => Cube { centered_corners: CenteredCornerMap { raw: (corner_pack8(0, 1, 2, 3, 4, 5, 6, 7) | center_pack3(2, 1, 4)) }, edges: EdgeMap { set: edge_pack12(0, 1, 2, 3, 4, 5, 6, 7, 26, 27, 25, 24) } },
        Move::M2 => Cube { centered_corners: CenteredCornerMap { raw: (corner_pack8(0, 1, 2, 3, 4, 5, 6, 7) | center_pack3(1, 3, 4)) }, edges: EdgeMap { set: edge_pack12(0, 1, 2, 3, 4, 5, 6, 7, 9, 8, 11, 10) } },
        Move::M3 => Cube { centered_corners: CenteredCornerMap { raw: (corner_pack8(0, 1, 2, 3, 4, 5, 6, 7) | center_pack3(3, 0, 4)) }, edges: EdgeMap { set: edge_pack12(0, 1, 2, 3, 4, 5, 6, 7, 27, 26, 24, 25) } },
        Move::Y1 => Cube { centered_corners: CenteredCornerMap { raw: (corner_pack8(4, 5, 0, 1, 6, 7, 2, 3) | center_pack3(0, 5, 2)) }, edges: EdgeMap { set: edge_pack12(8, 11, 10, 9, 23, 20, 21, 22, 2, 1, 0, 3) } },
        Move::Y2 => Cube { centered_corners: CenteredCornerMap { raw: (corner_pack8(6, 7, 4, 5, 2, 3, 0, 1) | center_pack3(0, 3, 5)) }, edges: EdgeMap { set: edge_pack12(2, 3, 0, 1, 6, 7, 4, 5, 10, 11, 8, 9) } },
        Move::Y3 => Cube { centered_corners: CenteredCornerMap { raw: (corner_pack8(2, 3, 6, 7, 0, 1, 4, 5) | center_pack3(0, 4, 3)) }, edges: EdgeMap { set: edge_pack12(10, 9, 8, 11, 21, 22, 23, 20, 0, 3, 2, 1) } },
        Move::Z1 => Cube { centered_corners: CenteredCornerMap { raw: (corner_pack8(9, 21, 19, 15, 16, 12, 10, 22) | center_pack3(4, 2, 1)) }, edges: EdgeMap { set: edge_pack12(18, 16, 19, 17, 24, 26, 25, 27, 23, 21, 22, 20) } },
        Move::Z2 => Cube { centered_corners: CenteredCornerMap { raw: (corner_pack8(5, 4, 7, 6, 1, 0, 3, 2) | center_pack3(1, 2, 5)) }, edges: EdgeMap { set: edge_pack12(3, 2, 1, 0, 7, 6, 5, 4, 11, 10, 9, 8) } },
        Move::Z3 => Cube { centered_corners: CenteredCornerMap { raw: (corner_pack8(12, 16, 22, 10, 21, 9, 15, 19) | center_pack3(5, 2, 0)) }, edges: EdgeMap { set: edge_pack12(17, 19, 16, 18, 27, 25, 26, 24, 20, 22, 21, 23) } },
        Move::X1 => Cube { centered_corners: CenteredCornerMap { raw: (corner_pack8(18, 8, 11, 17, 14, 20, 23, 13) | center_pack3(3, 0, 4)) }, edges: EdgeMap { set: edge_pack12(4, 5, 7, 6, 1, 0, 2, 3, 27, 26, 24, 25) } },
        Move::X2 => Cube { centered_corners: CenteredCornerMap { raw: (corner_pack8(3, 2, 1, 0, 7, 6, 5, 4) | center_pack3(1, 3, 4)) }, edges: EdgeMap { set: edge_pack12(1, 0, 3, 2, 5, 4, 7, 6, 9, 8, 11, 10) } },
        Move::X3 => Cube { centered_corners: CenteredCornerMap { raw: (corner_pack8(17, 11, 8, 18, 13, 23, 20, 14) | center_pack3(2, 1, 4)) }, edges: EdgeMap { set: edge_pack12(5, 4, 6, 7, 0, 1, 3, 2, 26, 27, 25, 24) } },
        Move::Uw1 => Cube { centered_corners: CenteredCornerMap { raw: (corner_pack8(4, 1, 0, 3, 6, 5, 2, 7) | center_pack3(0, 5, 2)) }, edges: EdgeMap { set: edge_pack12(8, 1, 10, 3, 23, 20, 21, 22, 2, 9, 0, 11) } },
        Move::Uw2 => Cube { centered_corners: CenteredCornerMap { raw: (corner_pack8(6, 1, 4, 3, 2, 5, 0, 7) | center_pack3(0, 3, 5)) }, edges: EdgeMap { set: edge_pack12(2, 1, 0, 3, 6, 7, 4, 5, 10, 9, 8, 11) } },
        Move::Uw3 => Cube { centered_corners: CenteredCornerMap { raw: (corner_pack8(2, 1, 6, 3, 0, 5, 4, 7) | center_pack3(0, 4, 3)) }, edges: EdgeMap { set: edge_pack12(10, 1, 8, 3, 21, 22, 23, 20, 0, 9, 2, 11) } },
        Move::Dw1 => Cube { centered_corners: CenteredCornerMap { raw: (corner_pack8(0, 3, 2, 7, 4, 1, 6, 5) | center_pack3(0, 4, 3)) }, edges: EdgeMap { set: edge_pack12(0, 9, 2, 11, 21, 22, 23, 20, 8, 3, 10, 1) } },
        Move::Dw2 => Cube { centered_corners: CenteredCornerMap { raw: (corner_pack8(0, 7, 2, 5, 4, 3, 6, 1) | center_pack3(0, 3, 5)) }, edges: EdgeMap { set: edge_pack12(0, 3, 2, 1, 6, 7, 4, 5, 8, 11, 10, 9) } },
        Move::Dw3 => Cube { centered_corners: CenteredCornerMap { raw: (corner_pack8(0, 5, 2, 1, 4, 7, 6, 3) | center_pack3(0, 5, 2)) }, edges: EdgeMap { set: edge_pack12(0, 11, 2, 9, 23, 20, 21, 22, 8, 1, 10, 3) } },
        Move::Fw1 => Cube { centered_corners: CenteredCornerMap { raw: (corner_pack8(9, 21, 2, 3, 16, 12, 6, 7) | center_pack3(4, 2, 1)) }, edges: EdgeMap { set: edge_pack12(18, 16, 19, 17, 4, 26, 25, 7, 8, 21, 22, 11) } },
        Move::Fw2 => Cube { centered_corners: CenteredCornerMap { raw: (corner_pack8(5, 4, 2, 3, 1, 0, 6, 7) | center_pack3(1, 2, 5)) }, edges: EdgeMap { set: edge_pack12(3, 2, 1, 0, 4, 6, 5, 7, 8, 10, 9, 11) } },
        Move::Fw3 => Cube { centered_corners: CenteredCornerMap { raw: (corner_pack8(12, 16, 2, 3, 21, 9, 6, 7) | center_pack3(5, 2, 0)) }, edges: EdgeMap { set: edge_pack12(17, 19, 16, 18, 4, 25, 26, 7, 8, 22, 21, 11) } },
        Move::Bw1 => Cube { centered_corners: CenteredCornerMap { raw: (corner_pack8(0, 1, 22, 10, 4, 5, 15, 19) | center_pack3(5, 2, 0)) }, edges: EdgeMap { set: edge_pack12(17, 19, 16, 18, 27, 5, 6, 24, 20, 9, 10, 23) } },
        Move::Bw2 => Cube { centered_corners: CenteredCornerMap { raw: (corner_pack8(0, 1, 7, 6, 4, 5, 3, 2) | center_pack3(1, 2, 5)) }, edges: EdgeMap { set: edge_pack12(3, 2, 1, 0, 7, 5, 6, 4, 11, 9, 10, 8) } },
        Move::Bw3 => Cube { centered_corners: CenteredCornerMap { raw: (corner_pack8(0, 1, 19, 15, 4, 5, 10, 22) | center_pack3(4, 2, 1)) }, edges: EdgeMap { set: edge_pack12(18, 16, 19, 17, 24, 5, 6, 27, 23, 9, 10, 20) } },
        Move::Rw1 => Cube { centered_corners: CenteredCornerMap { raw: (corner_pack8(18, 8, 11, 17, 4, 5, 6, 7) | center_pack3(3, 0, 4)) }, edges: EdgeMap { set: edge_pack12(0, 1, 7, 6, 4, 5, 2, 3, 27, 26, 24, 25) } },
        Move::Rw2 => Cube { centered_corners: CenteredCornerMap { raw: (corner_pack8(3, 2, 1, 0, 4, 5, 6, 7) | center_pack3(1, 3, 4)) }, edges: EdgeMap { set: edge_pack12(0, 1, 3, 2, 4, 5, 7, 6, 9, 8, 11, 10) } },
        Move::Rw3 => Cube { centered_corners: CenteredCornerMap { raw: (corner_pack8(17, 11, 8, 18, 4, 5, 6, 7) | center_pack3(2, 1, 4)) }, edges: EdgeMap { set: edge_pack12(0, 1, 6, 7, 4, 5, 3, 2, 26, 27, 25, 24) } },
        Move::Lw1 => Cube { centered_corners: CenteredCornerMap { raw: (corner_pack8(0, 1, 2, 3, 13, 23, 20, 14) | center_pack3(2, 1, 4)) }, edges: EdgeMap { set: edge_pack12(5, 4, 2, 3, 0, 1, 6, 7, 26, 27, 25, 24) } },
        Move::Lw2 => Cube { centered_corners: CenteredCornerMap { raw: (corner_pack8(0, 1, 2, 3, 7, 6, 5, 4) | center_pack3(1, 3, 4)) }, edges: EdgeMap { set: edge_pack12(1, 0, 2, 3, 5, 4, 6, 7, 9, 8, 11, 10) } },
        Move::Lw3 => Cube { centered_corners: CenteredCornerMap { raw: (corner_pack8(0, 1, 2, 3, 14, 20, 23, 13) | center_pack3(3, 0, 4)) }, edges: EdgeMap { set: edge_pack12(4, 5, 2, 3, 1, 0, 6, 7, 27, 26, 24, 25) } },
    }
}

/// The group element of each of the 24 whole-cube rotations, in the
/// order that the center coordinate indexes them.
pub open spec fn rotation_cube_spec(k: int) -> Cube
    recommends
        0 <= k < 24,
{
    if k == 0 {
        Cube { centered_corners: CenteredCornerMap { raw: (corner_pack8(13, 23, 17, 11, 20, 14, 8, 18) | center_pack3(2, 5, 1)) }, edges: EdgeMap { set: edge_pack12(26, 24, 25, 27, 18, 16, 17, 19, 6, 4, 5, 7) } }
    } else if k == 1 {
        Cube { centered_corners: CenteredCornerMap { raw: (corner_pack8(11, 17, 23, 13, 18, 8, 14, 20) | center_pack3(3, 4, 1)) }, edges: EdgeMap { set: edge_pack12(24, 26, 27, 25, 16, 18, 19, 17, 4, 6, 7, 5) } }
    } else if k == 2 {
        Cube { centered_corners: CenteredCornerMap { raw: (corner_pack8(10, 22, 16, 12, 19, 15, 9, 21) | center_pack3(4, 3, 0)) }, edges: EdgeMap { set: edge_pack12(19, 17, 18, 16, 25, 27, 24, 26, 22, 20, 23, 21) } }
    } else if k == 3 {
        Cube { centered_corners: CenteredCornerMap { raw: (corner_pack8(12, 16, 22, 10, 21, 9, 15, 19) | center_pack3(5, 2, 0)) }, edges: EdgeMap { set: edge_pack12(17, 19, 16, 18, 27, 25, 26, 24, 20, 22, 21, 23) } }
    } else if k == 4 {
        Cube { centered_corners: CenteredCornerMap { raw: (corner_pack8(1, 0, 5, 4, 3, 2, 7, 6) | center_pack3(1, 4, 2)) }, edges: EdgeMap { set: edge_pack12(11, 8, 9, 10, 20, 23, 22, 21, 1, 2, 3, 0) } }
    } else if k == 5 {
        Cube { centered_corners: CenteredCornerMap { raw: (corner_pack8(4, 5, 0, 1, 6, 7, 2, 3) | center_pack3(0, 5, 2)) }, edges: EdgeMap { set: edge_pack12(8, 11, 10, 9, 23, 20, 21, 22, 2, 1, 0, 3) } }
    } else if k == 6 {
        Cube { centered_corners: CenteredCornerMap { raw: (corner_pack8(22, 10, 15, 19, 12, 16, 21, 9) | center_pack3(5, 0, 3)) }, edges: EdgeMap { set: edge_pack12(21, 22, 20, 23, 9, 10, 8, 11, 17, 18, 16, 19) } }
    } else if k == 7 {
        Cube { centered_corners: CenteredCornerMap { raw: (corner_pack8(19, 15, 10, 22, 9, 21, 16, 12) | center_pack3(4, 1, 3)) }, edges: EdgeMap { set: edge_pack12(22, 21, 23, 20, 10, 9, 11, 8, 18, 17, 19, 16) } }
    } else if k == 8 {
        Cube { centered_corners: CenteredCornerMap { raw: (corner_pack8(8, 18, 20, 14, 17, 11, 13, 23) | center_pack3(2, 4, 0)) }, edges: EdgeMap { set: edge_pack12(25, 27, 26, 24, 17, 19, 18, 16, 5, 7, 6, 4) } }
    } else if k == 9 {
        Cube { centered_corners: CenteredCornerMap { raw: (corner_pack8(14, 20, 18, 8, 23, 13, 11, 17) | center_pack3(3, 5, 0)) }, edges: EdgeMap { set: edge_pack12(27, 25, 24, 26, 19, 17, 16, 18, 7, 5, 4, 6) } }
    } else if k == 10 {
        Cube { centered_corners: CenteredCornerMap { raw: (corner_pack8(16, 12, 9, 21, 10, 22, 19, 15) | center_pack3(4, 0, 2)) }, edges: EdgeMap { set: edge_pack12(23, 20, 22, 21, 11, 8, 10, 9, 19, 16, 18, 17) } }
    } else if k == 11 {
        Cube { centered_corners: CenteredCornerMap { raw: (corner_pack8(21, 9, 12, 16, 15, 19, 22, 10) | center_pack3(5, 1, 2)) }, edges: EdgeMap { set: edge_pack12(20, 23, 21, 22, 8, 11, 9, 10, 16, 19, 17, 18) } }
    } else if k == 12 {
        Cube { centered_corners: CenteredCornerMap { raw: (corner_pack8(17, 11, 8, 18, 13, 23, 20, 14) | center_pack3(2, 1, 4)) }, edges: EdgeMap { set: edge_pack12(5, 4, 6, 7, 0, 1, 3, 2, 26, 27, 25, 24) } }
    } else if k == 13 {
        Cube { centered_corners: CenteredCornerMap { raw: (corner_pack8(18, 8, 11, 17, 14, 20, 23, 13) | center_pack3(3, 0, 4)) }, edges: EdgeMap { set: edge_pack12(4, 5, 7, 6, 1, 0, 2, 3, 27, 26, 24, 25) } }
    } else if k == 14 {
        Cube { centered_corners: CenteredCornerMap { raw: (corner_pack8(6, 7, 4, 5, 2, 3, 0, 1) | center_pack3(0, 3, 5)) }, edges: EdgeMap { set: edge_pack12(2, 3, 0, 1, 6, 7, 4, 5, 10, 11, 8, 9) } }
    } else if k == 15 {
        Cube { centered_corners: CenteredCornerMap { raw: (corner_pack8(5, 4, 7, 6, 1, 0, 3, 2) | center_pack3(1, 2, 5)) }, edges: EdgeMap { set: edge_pack12(3, 2, 1, 0, 7, 6, 5, 4, 11, 10, 9, 8) } }
    } else if k == 16 {
        Cube { centered_corners: CenteredCornerMap { raw: (corner_pack8(9, 21, 19, 15, 16, 12, 10, 22) | center_pack3(4, 2, 1)) }, edges: EdgeMap { set: edge_pack12(18, 16, 19, 17, 24, 26, 25, 27, 23, 21, 22, 20) } }
    } else if k == 17 {
        Cube { centered_corners: CenteredCornerMap { raw: (corner_pack8(15, 19, 21, 9, 22, 10, 12, 16) | center_pack3(5, 3, 1)) }, edges: EdgeMap { set: edge_pack12(16, 18, 17, 19, 26, 24, 27, 25, 21, 23, 20, 22) } }
    } else if k == 18 {
        Cube { centered_corners: CenteredCornerMap { raw: (corner_pack8(0, 1, 2, 3, 4, 5, 6, 7) | center_pack3(0, 2, 4)) }, edges: EdgeMap { set: edge_pack12(0, 1, 2, 3, 4, 5, 6, 7, 8, 9, 10, 11) } }
    } else if k == 19 {
        Cube { centered_corners: CenteredCornerMap { raw: (corner_pack8(3, 2, 1, 0, 7, 6, 5, 4) | center_pack3(1, 3, 4)) }, edges: EdgeMap { set: edge_pack12(1, 0, 3, 2, 5, 4, 7, 6, 9, 8, 11, 10) } }
    } else if k == 20 {
        Cube { centered_corners: CenteredCornerMap { raw: (corner_pack8(2, 3, 6, 7, 0, 1, 4, 5) | center_pack3(0, 4, 3)) }, edges: EdgeMap { set: edge_pack12(10, 9, 8, 11, 21, 22, 23, 20, 0, 3, 2, 1) } }
    } else if k == 21 {
        Cube { centered_corners: CenteredCornerMap { raw: (corner_pack8(7, 6, 3, 2, 5, 4, 1, 0) | center_pack3(1, 5, 3)) }, edges: EdgeMap { set: edge_pack12(9, 10, 11, 8, 22, 21, 20, 23, 3, 0, 1, 2) } }
    } else if k == 22 {
        Cube { centered_corners: CenteredCornerMap { raw: (corner_pack8(20, 14, 13, 23, 8, 18, 17, 11) | center_pack3(2, 0, 5)) }, edges: EdgeMap { set: edge_pack12(6, 7, 5, 4, 3, 2, 0, 1, 25, 24, 26, 27) } }
    } else {
        Cube { centered_corners: CenteredCornerMap { raw: (corner_pack8(23, 13, 14, 20, 11, 17, 18, 8) | center_pack3(3, 1, 5)) }, edges: EdgeMap { set: edge_pack12(7, 6, 4, 5, 2, 3, 1, 0, 24, 25, 27, 26) } }
    }
}

/// The face each move ordinal turns: ordinal group `v / 3`.
pub open spec fn face_of_group_spec(t: u64) -> Face
    recommends
        t < 18,
{
    if t == 0 {
        Face::Up
    } else if t == 1 {
        Face::Down
    } else if t == 2 {
        Face::Front
    } else if t == 3 {
        Face::Back
    } else if t == 4 {
        Face::Right
    } else if t == 5 {
        Face::Left
    } else if t == 6 {
        Face::Down
    } else if t == 7 {
        Face::Front
    } else if t == 8 {
        Face::Left
    } else if t == 9 {
        Face::Up
    } else if t == 10 {
        Face::Front
    } else if t == 11 {
        Face::Right
    } else if t == 12 {
        Face::Up
    } else if t == 13 {
        Face::Down
    } else if t == 14 {
        Face::Front
    } else if t == 15 {
        Face::Back
    } else if t == 16 {
        Face::Right
    } else {
        Face::Left
    }
}

pub open spec fn move_face_spec(m: Move) -> Face {
    face_of_group_spec(move_index_spec(m) / 3)
}

pub open spec fn move_kind_spec(m: Move) -> MoveKind {
    let t = move_index_spec(m) / 9;
    if t < 2 {
        MoveKind::Face
    } else if t == 2 {
        MoveKind::Slice
    } else if t == 3 {
        MoveKind::Rotation
    } else {
        MoveKind::Wide
    }
}

pub open spec fn move_angle_spec(m: Move) -> MoveAngle {
    let t = move_index_spec(m) % 3;
    if t == 0 {
        MoveAngle::Cw
    } else if t == 1 {
        MoveAngle::Two
    } else {
        MoveAngle::Ccw
    }
}

/// The slice move that turns the layer between `face` and its opposite
/// by `angle`, ordered as seen from `face`.
pub open spec fn slice_of_spec(t: u64) -> Move
    recommends
        t < 18,
{
    if t == 0 {
        Move::E3
    } else if t == 1 {
        Move::E2
    } else if t == 2 {
        Move::E1
    } else if t == 3 {
        Move::E1
    } else if t == 4 {
        Move::E2
    } else if t == 5 {
        Move::E3
    } else if t == 6 {
        Move::S1
    } else if t == 7 {
        Move::S2
    } else if t == 8 {
        Move::S3
    } else if t == 9 {
        Move::S3
    } else if t == 10 {
        Move::S2
    } else if t == 11 {
        Move::S1
    } else if t == 12 {
        Move::M3
    } else if t == 13 {
        Move::M2
    } else if t == 14 {
        Move::M1
    } else if t == 15 {
        Move::M1
    } else if t == 16 {
        Move::M2
    } else {
        Move::M3
    }
}

/// The whole-cube rotation around the axis of `face` by `angle`, ordered
/// as seen from `face`.
pub open spec fn rotation_of_spec(t: u64) -> Move
    recommends
        t < 18,
{
    if t == 0 {
        Move::Y1
    } else if t == 1 {
        Move::Y2
    } else if t == 2 {
        Move::Y3
    } else if t == 3 {
        Move::Y3
    } else if t == 4 {
        Move::Y2
    } else if t == 5 {
        Move::Y1
    } else if t == 6 {
        Move::Z1
    } else if t == 7 {
        Move::Z2
    } else if t == 8 {
        Move::Z3
    } else if t == 9 {
        Move::Z3
    } else if t == 10 {
        Move::Z2
    } else if t == 11 {
        Move::Z1
    } else if t == 12 {
        Move::X1
    } else if t == 13 {
        Move::X2
    } else if t == 14 {
        Move::X3
    } else if t == 15 {
        Move::X3
    } else if t == 16 {
        Move::X2
    } else {
        Move::X1
    }
}

/// The move that turns `face` with the given `kind` and `angle`.
pub open spec fn move_new_spec(kind: MoveKind, face: Face, angle: MoveAngle) -> Move {
    let t = (face_index_spec(face) * 3 + angle_index_spec(angle)) as u64;
    match kind {
        MoveKind::Face => move_from_index_spec(t),
        MoveKind::Wide => move_from_index_spec((t + 36) as u64),
        MoveKind::Rotation => rotation_of_spec(t),
        MoveKind::Slice => slice_of_spec(t),
    }
}

/// Assembles a cube from plain position, orientation and center tables.
/// The catalog entries below are built this way, so each carries its
/// well-formedness by construction.
fn build_cube(cpos: &[u8; 8], cori: &[u8; 8], ep: &[u8; 12], eo: &[u8; 12], g: &[u8; 3]) -> (r:
    Cube)
    requires
        forall|i: int| 0 <= i < 8 ==> cpos[i] < 8 && cori[i] < 3,
        forall|i: int| 0 <= i < 12 ==> ep[i] < 12 && eo[i] < 2,
        forall|i: int| 0 <= i < 3 ==> g[i] < 6,
    ensures
        r.centered_corners.raw == (corner_pack8(
            (cpos[0] + 8 * cori[0]) as u64,
            (cpos[1] + 8 * cori[1]) as u64,
            (cpos[2] + 8 * cori[2]) as u64,
            (cpos[3] + 8 * cori[3]) as u64,
            (cpos[4] + 8 * cori[4]) as u64,
            (cpos[5] + 8 * cori[5]) as u64,
            (cpos[6] + 8 * cori[6]) as u64,
            (cpos[7] + 8 * cori[7]) as u64,
        ) | center_pack3(g[0] as u64, g[1] as u64, g[2] as u64)),
        r.edges.set == edge_pack12(
            (ep[0] + 16 * eo[0]) as u64,
            (ep[1] + 16 * eo[1]) as u64,
            (ep[2] + 16 * eo[2]) as u64,
            (ep[3] + 16 * eo[3]) as u64,
            (ep[4] + 16 * eo[4]) as u64,
            (ep[5] + 16 * eo[5]) as u64,
            (ep[6] + 16 * eo[6]) as u64,
            (ep[7] + 16 * eo[7]) as u64,
            (ep[8] + 16 * eo[8]) as u64,
            (ep[9] + 16 * eo[9]) as u64,
            (ep[10] + 16 * eo[10]) as u64,
            (ep[11] + 16 * eo[11]) as u64,
        ),
        cube_wf(r),
        cg(cc_centers_spec(r.centered_corners.raw), 0) == g[0],
        cg(cc_centers_spec(r.centered_corners.raw), 1) == g[1],
        cg(cc_centers_spec(r.centered_corners.raw), 2) == g[2],
{
    let cw = corner_pack(cpos, cori);
    let ew = edge_pack(ep, eo);
    let gw = center_pack(g);
    proof {
        assert forall|i: u64| i < 8 implies #[trigger] crate::cube::corner::cbyte(cw, i) == crate::cube::corner::cbyte(
            corner_pack8(
                (cpos@[0] + 8 * cori@[0]) as u64,
                (cpos@[1] + 8 * cori@[1]) as u64,
                (cpos@[2] + 8 * cori@[2]) as u64,
                (cpos@[3] + 8 * cori@[3]) as u64,
                (cpos@[4] + 8 * cori@[4]) as u64,
                (cpos@[5] + 8 * cori@[5]) as u64,
                (cpos@[6] + 8 * cori@[6]) as u64,
                (cpos@[7] + 8 * cori@[7]) as u64,
            ),
            i,
        ) by {
            crate::cube::corner::lemma_corner_byte_fields(cw, i);
            crate::cube::corner::lemma_corner_pack8_byte(
                (cpos@[0] + 8 * cori@[0]) as u64,
                (cpos@[1] + 8 * cori@[1]) as u64,
                (cpos@[2] + 8 * cori@[2]) as u64,
                (cpos@[3] + 8 * cori@[3]) as u64,
                (cpos@[4] + 8 * cori@[4]) as u64,
                (cpos@[5] + 8 * cori@[5]) as u64,
                (cpos@[6] + 8 * cori@[6]) as u64,
                (cpos@[7] + 8 * cori@[7]) as u64,
                i,
            );
        }
        crate::cube::corner::lemma_corner_eq_bytes(
            cw,
            corner_pack8(
                (cpos@[0] + 8 * cori@[0]) as u64,
                (cpos@[1] + 8 * cori@[1]) as u64,
                (cpos@[2] + 8 * cori@[2]) as u64,
                (cpos@[3] + 8 * cori@[3]) as u64,
                (cpos@[4] + 8 * cori@[4]) as u64,
                (cpos@[5] + 8 * cori@[5]) as u64,
                (cpos@[6] + 8 * cori@[6]) as u64,
                (cpos@[7] + 8 * cori@[7]) as u64,
            ),
        );
        assert forall|i: u64| i < 12 implies #[trigger] crate::cube::edge::eslot(ew, i)
            == crate::cube::edge::eslot(
            edge_pack12(
                (ep@[0] + 16 * eo@[0]) as u64,
                (ep@[1] + 16 * eo@[1]) as u64,
                (ep@[2] + 16 * eo@[2]) as u64,
                (ep@[3] + 16 * eo@[3]) as u64,
                (ep@[4] + 16 * eo@[4]) as u64,
                (ep@[5] + 16 * eo@[5]) as u64,
                (ep@[6] + 16 * eo@[6]) as u64,
                (ep@[7] + 16 * eo@[7]) as u64,
                (ep@[8] + 16 * eo@[8]) as u64,
                (ep@[9] + 16 * eo@[9]) as u64,
                (ep@[10] + 16 * eo@[10]) as u64,
                (ep@[11] + 16 * eo@[11]) as u64,
            ),
            i,
        ) by {
            crate::cube::edge::lemma_edge_slot_fields(ew, i);
            crate::cube::edge::lemma_edge_pack12_slot(
                (ep@[0] + 16 * eo@[0]) as u64,
                (ep@[1] + 16 * eo@[1]) as u64,
                (ep@[2] + 16 * eo@[2]) as u64,
                (ep@[3] + 16 * eo@[3]) as u64,
                (ep@[4] + 16 * eo@[4]) as u64,
                (ep@[5] + 16 * eo@[5]) as u64,
                (ep@[6] + 16 * eo@[6]) as u64,
                (ep@[7] + 16 * eo@[7]) as u64,
                (ep@[8] + 16 * eo@[8]) as u64,
                (ep@[9] + 16 * eo@[9]) as u64,
                (ep@[10] + 16 * eo@[10]) as u64,
                (ep@[11] + 16 * eo@[11]) as u64,
                i,
            );
        }
        crate::cube::edge::lemma_edge_pack12_slot(
            (ep@[0] + 16 * eo@[0]) as u64,
            (ep@[1] + 16 * eo@[1]) as u64,
            (ep@[2] + 16 * eo@[2]) as u64,
            (ep@[3] + 16 * eo@[3]) as u64,
            (ep@[4] + 16 * eo@[4]) as u64,
            (ep@[5] + 16 * eo@[5]) as u64,
            (ep@[6] + 16 * eo@[6]) as u64,
            (ep@[7] + 16 * eo@[7]) as u64,
            (ep@[8] + 16 * eo@[8]) as u64,
            (ep@[9] + 16 * eo@[9]) as u64,
            (ep@[10] + 16 * eo@[10]) as u64,
            (ep@[11] + 16 * eo@[11]) as u64,
            0,
        );
        crate::cube::edge::lemma_edge_eq_slots(
            ew,
            edge_pack12(
                (ep@[0] + 16 * eo@[0]) as u64,
                (ep@[1] + 16 * eo@[1]) as u64,
                (ep@[2] + 16 * eo@[2]) as u64,
                (ep@[3] + 16 * eo@[3]) as u64,
                (ep@[4] + 16 * eo@[4]) as u64,
                (ep@[5] + 16 * eo@[5]) as u64,
                (ep@[6] + 16 * eo@[6]) as u64,
                (ep@[7] + 16 * eo@[7]) as u64,
                (ep@[8] + 16 * eo@[8]) as u64,
                (ep@[9] + 16 * eo@[9]) as u64,
                (ep@[10] + 16 * eo@[10]) as u64,
                (ep@[11] + 16 * eo@[11]) as u64,
            ),
        );
        crate::cube::center::lemma_center_pack3(g@[0] as u64, g@[1] as u64, g@[2] as u64);
        crate::cube::center::lemma_center_eq_fields(
            gw,
            center_pack3(g@[0] as u64, g@[1] as u64, g@[2] as u64),
        );
        crate::cube::lemma_cc_split_wf(cw, gw);
    }
    let cc = CenteredCornerMap { raw: cw | gw };
    Cube { centered_corners: cc, edges: EdgeMap { set: ew } }
}

impl Move {
    /// Number of moves in the catalog.
    pub const COUNT: u8 = 54;

    /// The ordinal of this move, `0..54`.
    pub fn index(self) -> (r: u8)
        ensures
            r == move_index_spec(self),
            r < 54,
    {
        match self {
            Move::U1 => 0,
            Move::U2 => 1,
            Move::U3 => 2,
            Move::D1 => 3,
            Move::D2 => 4,
            Move::D3 => 5,
            Move::F1 => 6,
            Move::F2 => 7,
            Move::F3 => 8,
            Move::B1 => 9,
            Move::B2 => 10,
            Move::B3 => 11,
            Move::R1 => 12,
            Move::R2 => 13,
            Move::R3 => 14,
            Move::L1 => 15,
            Move::L2 => 16,
            Move::L3 => 17,
            Move::E1 => 18,
            Move::E2 => 19,
            Move::E3 => 20,
            Move::S1 => 21,
            Move::S2 => 22,
            Move::S3 => 23,
            Move::M1 => 24,
            Move::M2 => 25,
            Move::M3 => 26,
            Move::Y1 => 27,
            Move::Y2 => 28,
            Move::Y3 => 29,
            Move::Z1 => 30,
            Move::Z2 => 31,
            Move::Z3 => 32,
            Move::X1 => 33,
            Move::X2 => 34,
            Move::X3 => 35,
            Move::Uw1 => 36,
            Move::Uw2 => 37,
            Move::Uw3 => 38,
            Move::Dw1 => 39,
            Move::Dw2 => 40,
            Move::Dw3 => 41,
            Move::Fw1 => 42,
            Move::Fw2 => 43,
            Move::Fw3 => 44,
            Move::Bw1 => 45,
            Move::Bw2 => 46,
            Move::Bw3 => 47,
            Move::Rw1 => 48,
            Move::Rw2 => 49,
            Move::Rw3 => 50,
            Move::Lw1 => 51,
            Move::Lw2 => 52,
            Move::Lw3 => 53,
        }
    }

    /// The move with the given ordinal.
    pub fn from_index(v: u8) -> (r: Move)
        requires
            v < 54,
        ensures
            r == move_from_index_spec(v as u64),
            move_index_spec(r) == v,
    {
        let moves = Move::moves();
        moves[v as usize]
    }

    /// The move with the given ordinal, or an error above 53.
    pub fn try_from_u8(v: u8) -> (r: Result<Move, &'static str>)
        ensures
            v < 54 <==> r is Ok,
            v < 54 ==> r == Ok::<Move, &'static str>(move_from_index_spec(v as u64)),
    {
        if v >= 54 {
            Err("Value too large (>53).")
        } else {
            Ok(Move::from_index(v))
        }
    }

    /// The 54 moves in ordinal order.
    pub fn moves() -> (r: Vec<Move>)
        ensures
            r@.len() == 54,
            forall|i: int|
                0 <= i < 54 ==> r@[i] == move_from_index_spec(i as u64) && move_index_spec(
                    r@[i],
                ) == i,
    {
        let mut v: Vec<Move> = Vec::new();
        v.push(Move::U1);
        v.push(Move::U2);
        v.push(Move::U3);
        v.push(Move::D1);
        v.push(Move::D2);
        v.push(Move::D3);
        v.push(Move::F1);
        v.push(Move::F2);
        v.push(Move::F3);
        v.push(Move::B1);
        v.push(Move::B2);
        v.push(Move::B3);
        v.push(Move::R1);
        v.push(Move::R2);
        v.push(Move::R3);
        v.push(Move::L1);
        v.push(Move::L2);
        v.push(Move::L3);
        v.push(Move::E1);
        v.push(Move::E2);
        v.push(Move::E3);
        v.push(Move::S1);
        v.push(Move::S2);
        v.push(Move::S3);
        v.push(Move::M1);
        v.push(Move::M2);
        v.push(Move::M3);
        v.push(Move::Y1);
        v.push(Move::Y2);
        v.push(Move::Y3);
        v.push(Move::Z1);
        v.push(Move::Z2);
        v.push(Move::Z3);
        v.push(Move::X1);
        v.push(Move::X2);
        v.push(Move::X3);
        v.push(Move::Uw1);
        v.push(Move::Uw2);
        v.push(Move::Uw3);
        v.push(Move::Dw1);
        v.push(Move::Dw2);
        v.push(Move::Dw3);
        v.push(Move::Fw1);
        v.push(Move::Fw2);
        v.push(Move::Fw3);
        v.push(Move::Bw1);
        v.push(Move::Bw2);
        v.push(Move::Bw3);
        v.push(Move::Rw1);
        v.push(Move::Rw2);
        v.push(Move::Rw3);
        v.push(Move::Lw1);
        v.push(Move::Lw2);
        v.push(Move::Lw3);
        proof {
            assert forall|i: int| 0 <= i < 54 implies v@[i] == move_from_index_spec(i as u64)
                && move_index_spec(v@[i]) == i by {
                assert(v@[i] == move_from_index_spec(i as u64));
            }
        }
        v
    }

    /// The group element this move applies.
    pub fn cube(self) -> (r: Cube)
        ensures
            r == move_cube_spec(self),
            cube_wf(r),
    {
        match self {
            Move::U1 => build_cube(&[4, 1, 0, 3, 6, 5, 2, 7], &[0, 0, 0, 0, 0, 0, 0, 0], &[8, 1, 10, 3, 4, 5, 6, 7, 2, 9, 0, 11], &[0, 0, 0, 0, 0, 0, 0, 0, 0, 0, 0, 0], &[0, 2, 4]),
            Move::U2 => build_cube(&[6, 1, 4, 3, 2, 5, 0, 7], &[0, 0, 0, 0, 0, 0, 0, 0], &[2, 1, 0, 3, 4, 5, 6, 7, 10, 9, 8, 11], &[0, 0, 0, 0, 0, 0, 0, 0, 0, 0, 0, 0], &[0, 2, 4]),
            Move::U3 => build_cube(&[2, 1, 6, 3, 0, 5, 4, 7], &[0, 0, 0, 0, 0, 0, 0, 0], &[10, 1, 8, 3, 4, 5, 6, 7, 0, 9, 2, 11], &[0, 0, 0, 0, 0, 0, 0, 0, 0, 0, 0, 0], &[0, 2, 4]),
            Move::D1 => build_cube(&[0, 3, 2, 7, 4, 1, 6, 5], &[0, 0, 0, 0, 0, 0, 0, 0], &[0, 9, 2, 11, 4, 5, 6, 7, 8, 3, 10, 1], &[0, 0, 0, 0, 0, 0, 0, 0, 0, 0, 0, 0], &[0, 2, 4]),
            Move::D2 => build_cube(&[0, 7, 2, 5, 4, 3, 6, 1], &[0, 0, 0, 0, 0, 0, 0, 0], &[0, 3, 2, 1, 4, 5, 6, 7, 8, 11, 10, 9], &[0, 0, 0, 0, 0, 0, 0, 0, 0, 0, 0, 0], &[0, 2, 4]),
            Move::D3 => build_cube(&[0, 5, 2, 1, 4, 7, 6, 3], &[0, 0, 0, 0, 0, 0, 0, 0], &[0, 11, 2, 9, 4, 5, 6, 7, 8, 1, 10, 3], &[0, 0, 0, 0, 0, 0, 0, 0, 0, 0, 0, 0], &[0, 2, 4]),
            Move::F1 => build_cube(&[1, 5, 2, 3, 0, 4, 6, 7], &[1, 2, 0, 0, 2, 1, 0, 0], &[0, 1, 2, 3, 4, 10, 9, 7, 8, 5, 6, 11], &[0, 0, 0, 0, 0, 1, 1, 0, 0, 1, 1, 0], &[0, 2, 4]),
            Move::F2 => build_cube(&[5, 4, 2, 3, 1, 0, 6, 7], &[0, 0, 0, 0, 0, 0, 0, 0], &[0, 1, 2, 3, 4, 6, 5, 7, 8, 10, 9, 11], &[0, 0, 0, 0, 0, 0, 0, 0, 0, 0, 0, 0], &[0, 2, 4]),
            Move::F3 => build_cube(&[4, 0, 2, 3, 5, 1, 6, 7], &[1, 2, 0, 0, 2, 1, 0, 0], &[0, 1, 2, 3, 4, 9, 10, 7, 8, 6, 5, 11], &[0, 0, 0, 0, 0, 1, 1, 0, 0, 1, 1, 0], &[0, 2, 4]),
            Move::B1 => build_cube(&[0, 1, 6, 2, 4, 5, 7, 3], &[0, 0, 2, 1, 0, 0, 1, 2], &[0, 1, 2, 3, 11, 5, 6, 8, 4, 9, 10, 7], &[0, 0, 0, 0, 1, 0, 0, 1, 1, 0, 0, 1], &[0, 2, 4]),
            Move::B2 => build_cube(&[0, 1, 7, 6, 4, 5, 3, 2], &[0, 0, 0, 0, 0, 0, 0, 0], &[0, 1, 2, 3, 7, 5, 6, 4, 11, 9, 10, 8], &[0, 0, 0, 0, 0, 0, 0, 0, 0, 0, 0, 0], &[0, 2, 4]),
            Move::B3 => build_cube(&[0, 1, 3, 7, 4, 5, 2, 6], &[0, 0, 2, 1, 0, 0, 1, 2], &[0, 1, 2, 3, 8, 5, 6, 11, 7, 9, 10, 4], &[0, 0, 0, 0, 1, 0, 0, 1, 1, 0, 0, 1], &[0, 2, 4]),
            Move::R1 => build_cube(&[2, 0, 3, 1, 4, 5, 6, 7], &[2, 1, 1, 2, 0, 0, 0, 0], &[0, 1, 7, 6, 4, 5, 2, 3, 8, 9, 10, 11], &[0, 0, 0, 0, 0, 0, 0, 0, 0, 0, 0, 0], &[0, 2, 4]),
            Move::R2 => build_cube(&[3, 2, 1, 0, 4, 5, 6, 7], &[0, 0, 0, 0, 0, 0, 0, 0], &[0, 1, 3, 2, 4, 5, 7, 6, 8, 9, 10, 11], &[0, 0, 0, 0, 0, 0, 0, 0, 0, 0, 0, 0], &[0, 2, 4]),
            Move::R3 => build_cube(&[1, 3, 0, 2, 4, 5, 6, 7], &[2, 1, 1, 2, 0, 0, 0, 0], &[0, 1, 6, 7, 4, 5, 3, 2, 8, 9, 10, 11], &[0, 0, 0, 0, 0, 0, 0, 0, 0, 0, 0, 0], &[0, 2, 4]),
            Move::L1 => build_cube(&[0, 1, 2, 3, 5, 7, 4, 6], &[0, 0, 0, 0, 1, 2, 2, 1], &[5, 4, 2, 3, 0, 1, 6, 7, 8, 9, 10, 11], &[0, 0, 0, 0, 0, 0, 0, 0, 0, 0, 0, 0], &[0, 2, 4]),
            Move::L2 => build_cube(&[0, 1, 2, 3, 7, 6, 5, 4], &[0, 0, 0, 0, 0, 0, 0, 0], &[1, 0, 2, 3, 5, 4, 6, 7, 8, 9, 10, 11], &[0, 0, 0, 0, 0, 0, 0, 0, 0, 0, 0, 0], &[0, 2, 4]),
            Move::L3 => build_cube(&[0, 1, 2, 3, 6, 4, 7, 5], &[0, 0, 0, 0, 1, 2, 2, 1], &[4, 5, 2, 3, 1, 0, 6, 7, 8, 9, 10, 11], &[0, 0, 0, 0, 0, 0, 0, 0, 0, 0, 0, 0], &[0, 2, 4]),
            Move::E1 => build_cube(&[0, 1, 2, 3, 4, 5, 6, 7], &[0, 0, 0, 0, 0, 0, 0, 0], &[0, 1, 2, 3, 5, 6, 7, 4, 8, 9, 10, 11], &[0, 0, 0, 0, 1, 1, 1, 1, 0, 0, 0, 0], &[0, 4, 3]),
            Move::E2 => build_cube(&[0, 1, 2, 3, 4, 5, 6, 7], &[0, 0, 0, 0, 0, 0, 0, 0], &[0, 1, 2, 3, 6, 7, 4, 5, 8, 9, 10, 11], &[0, 0, 0, 0, 0, 0, 0, 0, 0, 0, 0, 0], &[0, 3, 5]),
            Move::E3 => build_cube(&[0, 1, 2, 3, 4, 5, 6, 7], &[0, 0, 0, 0, 0, 0, 0, 0], &[0, 1, 2, 3, 7, 4, 5, 6, 8, 9, 10, 11], &[0, 0, 0, 0, 1, 1, 1, 1, 0, 0, 0, 0], &[0, 5, 2]),
            Move::S1 => build_cube(&[0, 1, 2, 3, 4, 5, 6, 7], &[0, 0, 0, 0, 0, 0, 0, 0], &[2, 0, 3, 1, 4, 5, 6, 7, 8, 9, 10, 11], &[1, 1, 1, 1, 0, 0, 0, 0, 0, 0, 0, 0], &[4, 2, 1]),
            Move::S2 => build_cube(&[0, 1, 2, 3, 4, 5, 6, 7], &[0, 0, 0, 0, 0, 0, 0, 0], &[3, 2, 1, 0, 4, 5, 6, 7, 8, 9, 10, 11], &[0, 0, 0, 0, 0, 0, 0, 0, 0, 0, 0, 0], &[1, 2, 5]),
            Move::S3 => build_cube(&[0, 1, 2, 3, 4, 5, 6, 7], &[0, 0, 0, 0, 0, 0, 0, 0], &[1, 3, 0, 2, 4, 5, 6, 7, 8, 9, 10, 11], &[1, 1, 1, 1, 0, 0, 0, 0, 0, 0, 0, 0], &[5, 2, 0]),
            Move::M1 => build_cube(&[0, 1, 2, 3, 4, 5, 6, 7], &[0, 0, 0, 0, 0, 0, 0, 0], &[0, 1, 2, 3, 4, 5, 6, 7, 10, 11, 9, 8], &[0, 0, 0, 0, 0, 0, 0, 0, 1, 1, 1, 1], &[2, 1, 4]),
            Move::M2 => build_cube(&[0, 1, 2, 3, 4, 5, 6, 7], &[0, 0, 0, 0, 0, 0, 0, 0], &[0, 1, 2, 3, 4, 5, 6, 7, 9, 8, 11, 10], &[0, 0, 0, 0, 0, 0, 0, 0, 0, 0, 0, 0], &[1, 3, 4]),
            Move::M3 => build_cube(&[0, 1, 2, 3, 4, 5, 6, 7], &[0, 0, 0, 0, 0, 0, 0, 0], &[0, 1, 2, 3, 4, 5, 6, 7, 11, 10, 8, 9], &[0, 0, 0, 0, 0, 0, 0, 0, 1, 1, 1, 1], &[3, 0, 4]),
            Move::Y1 => build_cube(&[4, 5, 0, 1, 6, 7, 2, 3], &[0, 0, 0, 0, 0, 0, 0, 0], &[8, 11, 10, 9, 7, 4, 5, 6, 2, 1, 0, 3], &[0, 0, 0, 0, 1, 1, 1, 1, 0, 0, 0, 0], &[0, 5, 2]),
            Move::Y2 => build_cube(&[6, 7, 4, 5, 2, 3, 0, 1], &[0, 0, 0, 0, 0, 0, 0, 0], &[2, 3, 0, 1, 6, 7, 4, 5, 10, 11, 8, 9], &[0, 0, 0, 0, 0, 0, 0, 0, 0, 0, 0, 0], &[0, 3, 5]),
            Move::Y3 => build_cube(&[2, 3, 6, 7, 0, 1, 4, 5], &[0, 0, 0, 0, 0, 0, 0, 0], &[10, 9, 8, 11, 5, 6, 7, 4, 0, 3, 2, 1], &[0, 0, 0, 0, 1, 1, 1, 1, 0, 0, 0, 0], &[0, 4, 3]),
            Move::Z1 => build_cube(&[1, 5, 3, 7, 0, 4, 2, 6], &[1, 2, 2, 1, 2, 1, 1, 2], &[2, 0, 3, 1, 8, 10, 9, 11, 7, 5, 6, 4], &[1, 1, 1, 1, 1, 1, 1, 1, 1, 1, 1, 1], &[4, 2, 1]),
            Move::Z2 => build_cube(&[5, 4, 7, 6, 1, 0, 3, 2], &[0, 0, 0, 0, 0, 0, 0, 0], &[3, 2, 1, 0, 7, 6, 5, 4, 11, 10, 9, 8], &[0, 0, 0, 0, 0, 0, 0, 0, 0, 0, 0, 0], &[1, 2, 5]),
            Move::Z3 => build_cube(&[4, 0, 6, 2, 5, 1, 7, 3], &[1, 2, 2, 1, 2, 1, 1, 2], &[1, 3, 0, 2, 11, 9, 10, 8, 4, 6, 5, 7], &[1, 1, 1, 1, 1, 1, 1, 1, 1, 1, 1, 1], &[5, 2, 0]),
            Move::X1 => build_cube(&[2, 0, 3, 1, 6, 4, 7, 5], &[2, 1, 1, 2, 1, 2, 2, 1], &[4, 5, 7, 6, 1, 0, 2, 3, 11, 10, 8, 9], &[0, 0, 0, 0, 0, 0, 0, 0, 1, 1, 1, 1], &[3, 0, 4]),
            Move::X2 => build_cube(&[3, 2, 1, 0, 7, 6, 5, 4], &[0, 0, 0, 0, 0, 0, 0, 0], &[1, 0, 3, 2, 5, 4, 7, 6, 9, 8, 11, 10], &[0, 0, 0, 0, 0, 0, 0, 0, 0, 0, 0, 0], &[1, 3, 4]),
            Move::X3 => build_cube(&[1, 3, 0, 2, 5, 7, 4, 6], &[2, 1, 1, 2, 1, 2, 2, 1], &[5, 4, 6, 7, 0, 1, 3, 2, 10, 11, 9, 8], &[0, 0, 0, 0, 0, 0, 0, 0, 1, 1, 1, 1], &[2, 1, 4]),
            Move::Uw1 => build_cube(&[4, 1, 0, 3, 6, 5, 2, 7], &[0, 0, 0, 0, 0, 0, 0, 0], &[8, 1, 10, 3, 7, 4, 5, 6, 2, 9, 0, 11], &[0, 0, 0, 0, 1, 1, 1, 1, 0, 0, 0, 0], &[0, 5, 2]),
            Move::Uw2 => build_cube(&[6, 1, 4, 3, 2, 5, 0, 7], &[0, 0, 0, 0, 0, 0, 0, 0], &[2, 1, 0, 3, 6, 7, 4, 5, 10, 9, 8, 11], &[0, 0, 0, 0, 0, 0, 0, 0, 0, 0, 0, 0], &[0, 3, 5]),
            Move::Uw3 => build_cube(&[2, 1, 6, 3, 0, 5, 4, 7], &[0, 0, 0, 0, 0, 0, 0, 0], &[10, 1, 8, 3, 5, 6, 7, 4, 0, 9, 2, 11], &[0, 0, 0, 0, 1, 1, 1, 1, 0, 0, 0, 0], &[0, 4, 3]),
            Move::Dw1 => build_cube(&[0, 3, 2, 7, 4, 1, 6, 5], &[0, 0, 0, 0, 0, 0, 0, 0], &[0, 9, 2, 11, 5, 6, 7, 4, 8, 3, 10, 1], &[0, 0, 0, 0, 1, 1, 1, 1, 0, 0, 0, 0], &[0, 4, 3]),
            Move::Dw2 => build_cube(&[0, 7, 2, 5, 4, 3, 6, 1], &[0, 0, 0, 0, 0, 0, 0, 0], &[0, 3, 2, 1, 6, 7, 4, 5, 8, 11, 10, 9], &[0, 0, 0, 0, 0, 0, 0, 0, 0, 0, 0, 0], &[0, 3, 5]),
            Move::Dw3 => build_cube(&[0, 5, 2, 1, 4, 7, 6, 3], &[0, 0, 0, 0, 0, 0, 0, 0], &[0, 11, 2, 9, 7, 4, 5, 6, 8, 1, 10, 3], &[0, 0, 0, 0, 1, 1, 1, 1, 0, 0, 0, 0], &[0, 5, 2]),
            Move::Fw1 => build_cube(&[1, 5, 2, 3, 0, 4, 6, 7], &[1, 2, 0, 0, 2, 1, 0, 0], &[2, 0, 3, 1, 4, 10, 9, 7, 8, 5, 6, 11], &[1, 1, 1, 1, 0, 1, 1, 0, 0, 1, 1, 0], &[4, 2, 1]),
            Move::Fw2 => build_cube(&[5, 4, 2, 3, 1, 0, 6, 7], &[0, 0, 0, 0, 0, 0, 0, 0], &[3, 2, 1, 0, 4, 6, 5, 7, 8, 10, 9, 11], &[0, 0, 0, 0, 0, 0, 0, 0, 0, 0, 0, 0], &[1, 2, 5]),
            Move::Fw3 => build_cube(&[4, 0, 2, 3, 5, 1, 6, 7], &[1, 2, 0, 0, 2, 1, 0, 0], &[1, 3, 0, 2, 4, 9, 10, 7, 8, 6, 5, 11], &[1, 1, 1, 1, 0, 1, 1, 0, 0, 1, 1, 0], &[5, 2, 0]),
            Move::Bw1 => build_cube(&[0, 1, 6, 2, 4, 5, 7, 3], &[0, 0, 2, 1, 0, 0, 1, 2], &[1, 3, 0, 2, 11, 5, 6, 8, 4, 9, 10, 7], &[1, 1, 1, 1, 1, 0, 0, 1, 1, 0, 0, 1], &[5, 2, 0]),
            Move::Bw2 => build_cube(&[0, 1, 7, 6, 4, 5, 3, 2], &[0, 0, 0, 0, 0, 0, 0, 0], &[3, 2, 1, 0, 7, 5, 6, 4, 11, 9, 10, 8], &[0, 0, 0, 0, 0, 0, 0, 0, 0, 0, 0, 0], &[1, 2, 5]),
            Move::Bw3 => build_cube(&[0, 1, 3, 7, 4, 5, 2, 6], &[0, 0, 2, 1, 0, 0, 1, 2], &[2, 0, 3, 1, 8, 5, 6, 11, 7, 9, 10, 4], &[1, 1, 1, 1, 1, 0, 0, 1, 1, 0, 0, 1], &[4, 2, 1]),
            Move::Rw1 => build_cube(&[2, 0, 3, 1, 4, 5, 6, 7], &[2, 1, 1, 2, 0, 0, 0, 0], &[0, 1, 7, 6, 4, 5, 2, 3, 11, 10, 8, 9], &[0, 0, 0, 0, 0, 0, 0, 0, 1, 1, 1, 1], &[3, 0, 4]),
            Move::Rw2 => build_cube(&[3, 2, 1, 0, 4, 5, 6, 7], &[0, 0, 0, 0, 0, 0, 0, 0], &[0, 1, 3, 2, 4, 5, 7, 6, 9, 8, 11, 10], &[0, 0, 0, 0, 0, 0, 0, 0, 0, 0, 0, 0], &[1, 3, 4]),
            Move::Rw3 => build_cube(&[1, 3, 0, 2, 4, 5, 6, 7], &[2, 1, 1, 2, 0, 0, 0, 0], &[0, 1, 6, 7, 4, 5, 3, 2, 10, 11, 9, 8], &[0, 0, 0, 0, 0, 0, 0, 0, 1, 1, 1, 1], &[2, 1, 4]),
            Move::Lw1 => build_cube(&[0, 1, 2, 3, 5, 7, 4, 6], &[0, 0, 0, 0, 1, 2, 2, 1], &[5, 4, 2, 3, 0, 1, 6, 7, 10, 11, 9, 8], &[0, 0, 0, 0, 0, 0, 0, 0, 1, 1, 1, 1], &[2, 1, 4]),
            Move::Lw2 => build_cube(&[0, 1, 2, 3, 7, 6, 5, 4], &[0, 0, 0, 0, 0, 0, 0, 0], &[1, 0, 2, 3, 5, 4, 6, 7, 9, 8, 11, 10], &[0, 0, 0, 0, 0, 0, 0, 0, 0, 0, 0, 0], &[1, 3, 4]),
            Move::Lw3 => build_cube(&[0, 1, 2, 3, 6, 4, 7, 5], &[0, 0, 0, 0, 1, 2, 2, 1], &[4, 5, 2, 3, 1, 0, 6, 7, 11, 10, 8, 9], &[0, 0, 0, 0, 0, 0, 0, 0, 1, 1, 1, 1], &[3, 0, 4]),
        }
    }

    /// The corner component of this move's element.
    pub fn corners(self) -> (r: CornerMap)
        ensures
            r.raw == cc_corners_spec(move_cube_spec(self).centered_corners.raw),
    {
        self.cube().corners()
    }

    /// The edge component of this move's element.
    pub fn edges(self) -> (r: EdgeMap)
        ensures
            r.set == move_cube_spec(self).edges.set,
    {
        self.cube().edges()
    }

    /// The center component of this move's element.
    pub fn centers(self) -> (r: CenterMap)
        ensures
            r.raw == cc_centers_spec(move_cube_spec(self).centered_corners.raw),
    {
        self.cube().centers()
    }

    /// The face this move turns.
    pub fn face(self) -> (r: Face)
        ensures
            r == move_face_spec(self),
    {
        let t = self.index() / 3;
        if t == 0 {
            Face::Up
        } else if t == 1 {
            Face::Down
        } else if t == 2 {
            Face::Front
        } else if t == 3 {
            Face::Back
        } else if t == 4 {
            Face::Right
        } else if t == 5 {
            Face::Left
        } else if t == 6 {
            Face::Down
        } else if t == 7 {
            Face::Front
        } else if t == 8 {
            Face::Left
        } else if t == 9 {
            Face::Up
        } else if t == 10 {
            Face::Front
        } else if t == 11 {
            Face::Right
        } else if t == 12 {
            Face::Up
        } else if t == 13 {
            Face::Down
        } else if t == 14 {
            Face::Front
        } else if t == 15 {
            Face::Back
        } else if t == 16 {
            Face::Right
        } else {
            Face::Left
        }
    }

    /// What layer this move turns.
    pub fn kind(self) -> (r: MoveKind)
        ensures
            r == move_kind_spec(self),
    {
        let t = self.index() / 9;
        if t < 2 {
            MoveKind::Face
        } else if t == 2 {
            MoveKind::Slice
        } else if t == 3 {
            MoveKind::Rotation
        } else {
            MoveKind::Wide
        }
    }

    /// The power of this move.
    pub fn angle(self) -> (r: MoveAngle)
        ensures
            r == move_angle_spec(self),
    {
        MoveAngle::from_index(self.index() % 3)
    }

    /// This move's base turn with another power.
    pub fn set_angle(self, angle: MoveAngle) -> (r: Move)
        ensures
            move_index_spec(r) == move_index_spec(self) - move_index_spec(self) % 3
                + angle_index_spec(angle),
    {
        let v = self.index();
        Move::from_index(v - v % 3 + angle.index())
    }

    /// The clockwise power of this move's base turn.
    pub fn cw(self) -> (r: Move)
        ensures
            move_index_spec(r) == move_index_spec(self) - move_index_spec(self) % 3,
    {
        let v = self.index();
        Move::from_index(v - v % 3)
    }

    /// The double power of this move's base turn.
    pub fn two(self) -> (r: Move)
        ensures
            move_index_spec(r) == move_index_spec(self) - move_index_spec(self) % 3 + 1,
    {
        let v = self.index();
        Move::from_index(v - v % 3 + 1)
    }

    /// The counter-clockwise power of this move's base turn.
    pub fn ccw(self) -> (r: Move)
        ensures
            move_index_spec(r) == move_index_spec(self) - move_index_spec(self) % 3 + 2,
    {
        let v = self.index();
        Move::from_index(v - v % 3 + 2)
    }

    /// The power as a number: 0 clockwise, 1 double, 2 counter-clockwise.
    pub fn pow(self) -> (r: u8)
        ensures
            r == move_index_spec(self) % 3,
    {
        self.index() % 3
    }

    /// The move that undoes this one: the same base turn with the
    /// opposite power.
    pub fn inverse(self) -> (r: Move)
        ensures
            move_index_spec(r) == move_inverse_ordinal(move_index_spec(self)),
    {
        let v = self.index();
        if v % 3 == 0 {
            Move::from_index(v + 2)
        } else if v % 3 == 1 {
            Move::from_index(v)
        } else {
            Move::from_index(v - 2)
        }
    }

    /// The move that turns `face` with the given `kind` and `angle`.
    pub fn new(kind: MoveKind, face: Face, angle: MoveAngle) -> (r: Move)
        ensures
            r == move_new_spec(kind, face, angle),
    {
        let t = face.index() * 3 + angle.index();
        match kind {
            MoveKind::Face => Move::from_index(t),
            MoveKind::Wide => Move::from_index(t + 36),
            MoveKind::Rotation => {
                let base = 27 + (t / 6) * 3;
                let off = if t % 6 < 3 {
                    t % 6
                } else {
                    2 - t % 6 % 3
                };
                proof {
                    crate::cube::corner::lemma_factorial_pos(0);
                }
                let r = Move::from_index(base + off);
                proof {
                    assert(r == rotation_of_spec(t as u64));
                }
                r
            },
            MoveKind::Slice => {
                let base = 18 + (t / 6) * 3;
                let fwd = (t / 6) == 1;
                let inslice = if (t % 6 < 3) == fwd {
                    t % 6 % 3
                } else {
                    2 - t % 6 % 3
                };
                let r = Move::from_index(base + inslice);
                proof {
                    assert(r == slice_of_spec(t as u64));
                }
                r
            },
        }
    }

    /// The same move as seen from a rotated frame: the face is looked up
    /// through the given center map.
    pub fn projection(self, centers: CenterMap) -> (r: Move)
        requires
            center_wf(centers.raw),
        ensures
            r == move_new_spec(
                move_kind_spec(self),
                face_from_index_spec(
                    center_get_spec(
                        centers.raw,
                        face_index_spec(move_face_spec(self)) as u64,
                    ) as u8,
                ),
                move_angle_spec(self),
            ),
    {
        let f = centers.get(self.face());
        proof {
            crate::cube::center::lemma_center_get_mate(
                centers.raw,
                face_index_spec(move_face_spec(self)) as u64,
            );
        }
        Move::new(self.kind(), f, self.angle())
    }
}

/// The ordinal of the move that undoes the move with ordinal `v`.
pub open spec fn move_inverse_ordinal(v: u64) -> u64 {
    if v % 3 == 0 {
        (v + 2) as u64
    } else if v % 3 == 1 {
        v
    } else {
        (v - 2) as u64
    }
}

/// Every move is exactly one power of its base turn, and the three
/// powers relate as inverses: the counter-clockwise power undoes the
/// clockwise one and the double power undoes itself.
///
/// Law: for every move `m`, exactly one of `m == m.cw()`, `m == m.two()`,
/// `m == m.ccw()` holds; `m.cw().inverse() == m.ccw()`,
/// `m.ccw().inverse() == m.cw()`, and `m.two().inverse() == m.two()`.
pub proof fn lemma_move_powers(m: Move)
    ensures
        ({
            let v = move_index_spec(m);
            let cw = move_from_index_spec((v - v % 3) as u64);
            let two = move_from_index_spec((v - v % 3 + 1) as u64);
            let ccw = move_from_index_spec((v - v % 3 + 2) as u64);
            &&& (m == cw || m == two || m == ccw)
            &&& !(m == cw && m == two)
            &&& !(m == cw && m == ccw)
            &&& !(m == two && m == ccw)
            &&& move_inverse_ordinal(move_index_spec(cw)) == move_index_spec(ccw)
            &&& move_inverse_ordinal(move_index_spec(ccw)) == move_index_spec(cw)
            &&& move_inverse_ordinal(move_index_spec(two)) == move_index_spec(two)
        }),
{
    let v = move_index_spec(m);
    assert(move_index_spec(move_from_index_spec((v - v % 3) as u64)) == v - v % 3);
    assert(move_index_spec(move_from_index_spec((v - v % 3 + 1) as u64)) == v - v % 3 + 1);
    assert(move_index_spec(move_from_index_spec((v - v % 3 + 2) as u64)) == v - v % 3 + 2);
    assert(m == move_from_index_spec(move_index_spec(m)));
}

impl FaceMove {
    /// Number of face moves.
    pub const COUNT: u8 = 18;

    /// The ordinal of this face move, `0..18`.
    pub fn index(self) -> (r: u8)
        ensures
            r == facemove_index_spec(self),
            r < 18,
    {
        match self {
            FaceMove::U1 => 0,
            FaceMove::U2 => 1,
            FaceMove::U3 => 2,
            FaceMove::D1 => 3,
            FaceMove::D2 => 4,
            FaceMove::D3 => 5,
            FaceMove::F1 => 6,
            FaceMove::F2 => 7,
            FaceMove::F3 => 8,
            FaceMove::B1 => 9,
            FaceMove::B2 => 10,
            FaceMove::B3 => 11,
            FaceMove::R1 => 12,
            FaceMove::R2 => 13,
            FaceMove::R3 => 14,
            FaceMove::L1 => 15,
            FaceMove::L2 => 16,
            FaceMove::L3 => 17,
        }
    }

    /// The face move with the given ordinal.
    pub fn from_index(v: u8) -> (r: FaceMove)
        requires
            v < 18,
        ensures
            r == facemove_from_index_spec(v as u64),
            facemove_index_spec(r) == v,
    {
        let m = Move::from_index(v);
        m.as_face_move()
    }

    /// The face move with the given ordinal, or an error above 17.
    pub fn try_from_u8(v: u8) -> (r: Result<FaceMove, &'static str>)
        ensures
            v < 18 <==> r is Ok,
            v < 18 ==> r == Ok::<FaceMove, &'static str>(facemove_from_index_spec(v as u64)),
    {
        if v >= 18 {
            Err("Value too large (>17).")
        } else {
            Ok(FaceMove::from_index(v))
        }
    }

    /// The 18 face moves in ordinal order.
    pub fn moves() -> (r: Vec<FaceMove>)
        ensures
            r@.len() == 18,
            forall|i: int|
                0 <= i < 18 ==> r@[i] == facemove_from_index_spec(i as u64) && facemove_index_spec(
                    r@[i],
                ) == i,
    {
        let mut v: Vec<FaceMove> = Vec::new();
        let mut i: u8 = 0;
        while i < 18
            invariant
                i <= 18,
                v@.len() == i as int,
                forall|j: int|
                    0 <= j < i as int ==> v@[j] == facemove_from_index_spec(j as u64)
                        && facemove_index_spec(v@[j]) == j,
            decreases 18 - i,
        {
            v.push(FaceMove::from_index(i));
            i = i + 1;
        }
        v
    }

    /// The face move of `face` with the given power.
    pub fn new(face: Face, angle: MoveAngle) -> (r: FaceMove)
        ensures
            facemove_index_spec(r) == face_index_spec(face) as u64 * 3 + angle_index_spec(angle),
    {
        FaceMove::from_index(face.index() * 3 + angle.index())
    }

    /// The same turn as a member of the full move catalog. The first 18
    /// move ordinals are the face moves.
    pub fn to_move(self) -> (r: Move)
        ensures
            move_index_spec(r) == facemove_index_spec(self),
    {
        match self {
            FaceMove::U1 => Move::U1,
            FaceMove::U2 => Move::U2,
            FaceMove::U3 => Move::U3,
            FaceMove::D1 => Move::D1,
            FaceMove::D2 => Move::D2,
            FaceMove::D3 => Move::D3,
            FaceMove::F1 => Move::F1,
            FaceMove::F2 => Move::F2,
            FaceMove::F3 => Move::F3,
            FaceMove::B1 => Move::B1,
            FaceMove::B2 => Move::B2,
            FaceMove::B3 => Move::B3,
            FaceMove::R1 => Move::R1,
            FaceMove::R2 => Move::R2,
            FaceMove::R3 => Move::R3,
            FaceMove::L1 => Move::L1,
            FaceMove::L2 => Move::L2,
            FaceMove::L3 => Move::L3,
        }
    }

    /// The power of this face move.
    pub fn angle(self) -> (r: MoveAngle)
        ensures
            angle_index_spec(r) == facemove_index_spec(self) % 3,
    {
        MoveAngle::from_index(self.index() % 3)
    }

    /// The face this move turns.
    pub fn face(self) -> (r: Face)
        ensures
            face_index_spec(r) == facemove_index_spec(self) / 3,
    {
        Face::from_index(self.index() / 3)
    }

    /// The clockwise power of this move's base turn.
    pub fn cw(self) -> (r: FaceMove)
        ensures
            facemove_index_spec(r) == facemove_index_spec(self) - facemove_index_spec(self) % 3,
    {
        let v = self.index();
        FaceMove::from_index(v - v % 3)
    }

    /// The double power of this move's base turn.
    pub fn two(self) -> (r: FaceMove)
        ensures
            facemove_index_spec(r) == facemove_index_spec(self) - facemove_index_spec(self) % 3
                + 1,
    {
        let v = self.index();
        FaceMove::from_index(v - v % 3 + 1)
    }

    /// The counter-clockwise power of this move's base turn.
    pub fn ccw(self) -> (r: FaceMove)
        ensures
            facemove_index_spec(r) == facemove_index_spec(self) - facemove_index_spec(self) % 3
                + 2,
    {
        let v = self.index();
        FaceMove::from_index(v - v % 3 + 2)
    }

    /// The face move that undoes this one.
    pub fn inverse(self) -> (r: FaceMove)
        ensures
            facemove_index_spec(r) == move_inverse_ordinal(facemove_index_spec(self)),
    {
        let v = self.index();
        if v % 3 == 0 {
            FaceMove::from_index(v + 2)
        } else if v % 3 == 1 {
            FaceMove::from_index(v)
        } else {
            FaceMove::from_index(v - 2)
        }
    }

    /// The same face move as seen from a rotated frame.
    pub fn projection(self, centers: CenterMap) -> (r: FaceMove)
        requires
            center_wf(centers.raw),
        ensures
            facemove_index_spec(r) == center_get_spec(
                centers.raw,
                facemove_index_spec(self) / 3,
            ) * 3 + facemove_index_spec(self) % 3,
    {
        let f = centers.get(self.face());
        proof {
            crate::cube::center::lemma_center_get_mate(
                centers.raw,
                facemove_index_spec(self) / 3,
            );
        }
        FaceMove::new(f, self.angle())
    }

    /// The group element this face move applies to a full cube: the
    /// centers stay put.
    pub fn cube(self) -> (r: Cube)
        ensures
            r == move_cube_spec(move_of_facemove_spec(self)),
            cube_wf(r),
    {
        self.to_move().cube()
    }

    /// The element restricted to corners and edges.
    pub fn fc_cube(self) -> (r: FixedCentersCube)
        ensures
            r.corners.raw == cc_corners_spec(
                move_cube_spec(move_of_facemove_spec(self)).centered_corners.raw,
            ),
            r.edges.set == move_cube_spec(move_of_facemove_spec(self)).edges.set,
            crate::cube::fc_wf(r),
    {
        let c = self.cube();
        FixedCentersCube { corners: c.corners(), edges: c.edges() }
    }

    /// The corner component of this face move's element.
    pub fn corners(self) -> (r: CornerMap)
        ensures
            r.raw == cc_corners_spec(
                move_cube_spec(move_of_facemove_spec(self)).centered_corners.raw,
            ),
    {
        self.cube().corners()
    }

    /// The edge component of this face move's element.
    pub fn edges(self) -> (r: EdgeMap)
        ensures
            r.set == move_cube_spec(move_of_facemove_spec(self)).edges.set,
    {
        self.cube().edges()
    }
}

/// The member of the full catalog behind a face move.
pub open spec fn move_of_facemove_spec(m: FaceMove) -> Move {
    move_from_index_spec(facemove_index_spec(m))
}

impl Move {
    /// The face move behind one of the first 18 ordinals.
    pub fn as_face_move(self) -> (r: FaceMove)
        requires
            move_index_spec(self) < 18,
        ensures
            facemove_index_spec(r) == move_index_spec(self),
            r == facemove_from_index_spec(move_index_spec(self)),
    {
        match self {
            Move::U1 => FaceMove::U1,
            Move::U2 => FaceMove::U2,
            Move::U3 => FaceMove::U3,
            Move::D1 => FaceMove::D1,
            Move::D2 => FaceMove::D2,
            Move::D3 => FaceMove::D3,
            Move::F1 => FaceMove::F1,
            Move::F2 => FaceMove::F2,
            Move::F3 => FaceMove::F3,
            Move::B1 => FaceMove::B1,
            Move::B2 => FaceMove::B2,
            Move::B3 => FaceMove::B3,
            Move::R1 => FaceMove::R1,
            Move::R2 => FaceMove::R2,
            Move::R3 => FaceMove::R3,
            Move::L1 => FaceMove::L1,
            Move::L2 => FaceMove::L2,
            Move::L3 => FaceMove::L3,
            _ => FaceMove::U1,
        }
    }
}

/// One of the 24 whole-cube rotations, in the order the center
/// coordinate indexes them.
pub fn rotation_cube(k: u8) -> (r: Cube)
    requires
        k < 24,
    ensures
        r == rotation_cube_spec(k as int),
        cube_wf(r),
        crate::cube::center::center_is_perm(cc_centers_spec(r.centered_corners.raw)),
{
        if k == 0 {
            build_cube(&[5, 7, 1, 3, 4, 6, 0, 2], &[1, 2, 2, 1, 2, 1, 1, 2], &[10, 8, 9, 11, 2, 0, 1, 3, 6, 4, 5, 7], &[1, 1, 1, 1, 1, 1, 1, 1, 0, 0, 0, 0], &[2, 5, 1])
        } else if k == 1 {
            build_cube(&[3, 1, 7, 5, 2, 0, 6, 4], &[1, 2, 2, 1, 2, 1, 1, 2], &[8, 10, 11, 9, 0, 2, 3, 1, 4, 6, 7, 5], &[1, 1, 1, 1, 1, 1, 1, 1, 0, 0, 0, 0], &[3, 4, 1])
        } else if k == 2 {
            build_cube(&[2, 6, 0, 4, 3, 7, 1, 5], &[1, 2, 2, 1, 2, 1, 1, 2], &[3, 1, 2, 0, 9, 11, 8, 10, 6, 4, 7, 5], &[1, 1, 1, 1, 1, 1, 1, 1, 1, 1, 1, 1], &[4, 3, 0])
        } else if k == 3 {
            build_cube(&[4, 0, 6, 2, 5, 1, 7, 3], &[1, 2, 2, 1, 2, 1, 1, 2], &[1, 3, 0, 2, 11, 9, 10, 8, 4, 6, 5, 7], &[1, 1, 1, 1, 1, 1, 1, 1, 1, 1, 1, 1], &[5, 2, 0])
        } else if k == 4 {
            build_cube(&[1, 0, 5, 4, 3, 2, 7, 6], &[0, 0, 0, 0, 0, 0, 0, 0], &[11, 8, 9, 10, 4, 7, 6, 5, 1, 2, 3, 0], &[0, 0, 0, 0, 1, 1, 1, 1, 0, 0, 0, 0], &[1, 4, 2])
        } else if k == 5 {
            build_cube(&[4, 5, 0, 1, 6, 7, 2, 3], &[0, 0, 0, 0, 0, 0, 0, 0], &[8, 11, 10, 9, 7, 4, 5, 6, 2, 1, 0, 3], &[0, 0, 0, 0, 1, 1, 1, 1, 0, 0, 0, 0], &[0, 5, 2])
        } else if k == 6 {
            build_cube(&[6, 2, 7, 3, 4, 0, 5, 1], &[2, 1, 1, 2, 1, 2, 2, 1], &[5, 6, 4, 7, 9, 10, 8, 11, 1, 2, 0, 3], &[1, 1, 1, 1, 0, 0, 0, 0, 1, 1, 1, 1], &[5, 0, 3])
        } else if k == 7 {
            build_cube(&[3, 7, 2, 6, 1, 5, 0, 4], &[2, 1, 1, 2, 1, 2, 2, 1], &[6, 5, 7, 4, 10, 9, 11, 8, 2, 1, 3, 0], &[1, 1, 1, 1, 0, 0, 0, 0, 1, 1, 1, 1], &[4, 1, 3])
        } else if k == 8 {
            build_cube(&[0, 2, 4, 6, 1, 3, 5, 7], &[1, 2, 2, 1, 2, 1, 1, 2], &[9, 11, 10, 8, 1, 3, 2, 0, 5, 7, 6, 4], &[1, 1, 1, 1, 1, 1, 1, 1, 0, 0, 0, 0], &[2, 4, 0])
        } else if k == 9 {
            build_cube(&[6, 4, 2, 0, 7, 5, 3, 1], &[1, 2, 2, 1, 2, 1, 1, 2], &[11, 9, 8, 10, 3, 1, 0, 2, 7, 5, 4, 6], &[1, 1, 1, 1, 1, 1, 1, 1, 0, 0, 0, 0], &[3, 5, 0])
        } else if k == 10 {
            build_cube(&[0, 4, 1, 5, 2, 6, 3, 7], &[2, 1, 1, 2, 1, 2, 2, 1], &[7, 4, 6, 5, 11, 8, 10, 9, 3, 0, 2, 1], &[1, 1, 1, 1, 0, 0, 0, 0, 1, 1, 1, 1], &[4, 0, 2])
        } else if k == 11 {
            build_cube(&[5, 1, 4, 0, 7, 3, 6, 2], &[2, 1, 1, 2, 1, 2, 2, 1], &[4, 7, 5, 6, 8, 11, 9, 10, 0, 3, 1, 2], &[1, 1, 1, 1, 0, 0, 0, 0, 1, 1, 1, 1], &[5, 1, 2])
        } else if k == 12 {
            build_cube(&[1, 3, 0, 2, 5, 7, 4, 6], &[2, 1, 1, 2, 1, 2, 2, 1], &[5, 4, 6, 7, 0, 1, 3, 2, 10, 11, 9, 8], &[0, 0, 0, 0, 0, 0, 0, 0, 1, 1, 1, 1], &[2, 1, 4])
        } else if k == 13 {
            build_cube(&[2, 0, 3, 1, 6, 4, 7, 5], &[2, 1, 1, 2, 1, 2, 2, 1], &[4, 5, 7, 6, 1, 0, 2, 3, 11, 10, 8, 9], &[0, 0, 0, 0, 0, 0, 0, 0, 1, 1, 1, 1], &[3, 0, 4])
        } else if k == 14 {
            build_cube(&[6, 7, 4, 5, 2, 3, 0, 1], &[0, 0, 0, 0, 0, 0, 0, 0], &[2, 3, 0, 1, 6, 7, 4, 5, 10, 11, 8, 9], &[0, 0, 0, 0, 0, 0, 0, 0, 0, 0, 0, 0], &[0, 3, 5])
        } else if k == 15 {
            build_cube(&[5, 4, 7, 6, 1, 0, 3, 2], &[0, 0, 0, 0, 0, 0, 0, 0], &[3, 2, 1, 0, 7, 6, 5, 4, 11, 10, 9, 8], &[0, 0, 0, 0, 0, 0, 0, 0, 0, 0, 0, 0], &[1, 2, 5])
        } else if k == 16 {
            build_cube(&[1, 5, 3, 7, 0, 4, 2, 6], &[1, 2, 2, 1, 2, 1, 1, 2], &[2, 0, 3, 1, 8, 10, 9, 11, 7, 5, 6, 4], &[1, 1, 1, 1, 1, 1, 1, 1, 1, 1, 1, 1], &[4, 2, 1])
        } else if k == 17 {
            build_cube(&[7, 3, 5, 1, 6, 2, 4, 0], &[1, 2, 2, 1, 2, 1, 1, 2], &[0, 2, 1, 3, 10, 8, 11, 9, 5, 7, 4, 6], &[1, 1, 1, 1, 1, 1, 1, 1, 1, 1, 1, 1], &[5, 3, 1])
        } else if k == 18 {
            build_cube(&[0, 1, 2, 3, 4, 5, 6, 7], &[0, 0, 0, 0, 0, 0, 0, 0], &[0, 1, 2, 3, 4, 5, 6, 7, 8, 9, 10, 11], &[0, 0, 0, 0, 0, 0, 0, 0, 0, 0, 0, 0], &[0, 2, 4])
        } else if k == 19 {
            build_cube(&[3, 2, 1, 0, 7, 6, 5, 4], &[0, 0, 0, 0, 0, 0, 0, 0], &[1, 0, 3, 2, 5, 4, 7, 6, 9, 8, 11, 10], &[0, 0, 0, 0, 0, 0, 0, 0, 0, 0, 0, 0], &[1, 3, 4])
        } else if k == 20 {
            build_cube(&[2, 3, 6, 7, 0, 1, 4, 5], &[0, 0, 0, 0, 0, 0, 0, 0], &[10, 9, 8, 11, 5, 6, 7, 4, 0, 3, 2, 1], &[0, 0, 0, 0, 1, 1, 1, 1, 0, 0, 0, 0], &[0, 4, 3])
        } else if k == 21 {
            build_cube(&[7, 6, 3, 2, 5, 4, 1, 0], &[0, 0, 0, 0, 0, 0, 0, 0], &[9, 10, 11, 8, 6, 5, 4, 7, 3, 0, 1, 2], &[0, 0, 0, 0, 1, 1, 1, 1, 0, 0, 0, 0], &[1, 5, 3])
        } else if k == 22 {
            build_cube(&[4, 6, 5, 7, 0, 2, 1, 3], &[2, 1, 1, 2, 1, 2, 2, 1], &[6, 7, 5, 4, 3, 2, 0, 1, 9, 8, 10, 11], &[0, 0, 0, 0, 0, 0, 0, 0, 1, 1, 1, 1], &[2, 0, 5])
        } else {
            build_cube(&[7, 5, 6, 4, 3, 1, 2, 0], &[2, 1, 1, 2, 1, 2, 2, 1], &[7, 6, 4, 5, 2, 3, 1, 0, 8, 9, 11, 10], &[0, 0, 0, 0, 0, 0, 0, 0, 1, 1, 1, 1], &[3, 1, 5])
        }
}

/// The dense index of a center map among the 24 rotations: a hash of the
/// three axis fields that the rotation catalog is ordered by.
pub open spec fn center_index_spec(raw: u64) -> u64 {
    let x = ((raw & 0xE0E0C0) * 459018) as u64;
    let y = ((!x) >> 21) & 0x1f;
    (y ^ (((y + 8) as u64) >> 2)) as u64
}

/// The index formula stays below 32 whatever the word holds.
pub(crate) proof fn lemma_center_index_bound(raw: u64)
    by (bit_vector)
    ensures
        center_index_spec(raw) < 32,
        (raw & 0xE0E0C0) <= 0xE0E0C0,
        ((!(((raw & 0xE0E0C0) * 459018) as u64)) >> 21) & 0x1f < 32,
{
}

/// Whether a center word is one of the 24 rotations: its index leads
/// back to a catalog entry with exactly these centers.
pub open spec fn center_in_catalog(raw: u64) -> bool {
    &&& center_index_spec(raw) < 24
    &&& cc_centers_spec(rotation_cube_spec(center_index_spec(raw) as int).centered_corners.raw)
        == raw
}

impl CenterMap {
    /// The dense index of this map among the 24 rotations.
    pub fn index(self) -> (r: u8)
        ensures
            r == center_index_spec(self.raw),
            r < 32,
    {
        proof {
            lemma_center_index_bound(self.raw);
        }
        let x = (self.raw & 0xE0E0C0) * 459018;
        let y = ((!x) >> 21) & 0x1f;
        (y ^ ((y + 8) >> 2)) as u8
    }

    /// The whole-cube rotation that carries this center map.
    pub fn cube(self) -> (r: Cube)
        requires
            center_index_spec(self.raw) < 24,
        ensures
            r == rotation_cube_spec(center_index_spec(self.raw) as int),
            cube_wf(r),
    {
        let idx = self.index();
        rotation_cube(idx)
    }

    /// Checks that the word is one of the 24 legal rotations.
    pub fn validate(self) -> (r: Result<(), MapError>)
        ensures
            r is Ok <==> center_in_catalog(self.raw),
            r is Ok ==> center_wf(self.raw) && crate::cube::center::center_is_perm(self.raw),
            !(r is Ok) ==> r == Err::<(), MapError>(MapError::OutOfBounds),
    {
        let idx = self.index();
        if idx < 24 {
            let c = rotation_cube(idx);
            let cen = c.centers();
            if cen.raw == self.raw {
                Ok(())
            } else {
                Err(MapError::OutOfBounds)
            }
        } else {
            Err(MapError::OutOfBounds)
        }
    }

    /// Validates and wraps an untrusted raw word.
    pub fn from_raw(raw: u64) -> (r: Result<CenterMap, MapError>)
        ensures
            r is Ok <==> center_in_catalog(raw),
            r is Ok ==> r->Ok_0.raw == raw && center_wf(raw)
                && crate::cube::center::center_is_perm(raw),
            !(r is Ok) ==> r == Err::<CenterMap, MapError>(MapError::OutOfBounds),
    {
        let cm = CenterMap { raw };
        match cm.validate() {
            Ok(_) => Ok(cm),
            Err(e) => Err(e),
        }
    }

    /// The sign of the rotation's whole permutation on corners and
    /// edges together, read from a fixed table indexed by the rotation
    /// index.
    pub fn permutation_parity(self) -> (r: bool)
        ensures
            r == center_parity_spec(self.raw),
    {
        let idx = self.index();
        (0b111100110011000000111100u64 >> idx) & 1 == 1
    }

    /// Applies a move's center component: `self * m.centers()`.
    pub fn apply_move(self, m: Move) -> (r: CenterMap)
        requires
            center_wf(self.raw),
            center_wf(cc_centers_spec(move_cube_spec(m).centered_corners.raw)),
        ensures
            r.raw == crate::cube::center::center_mul_spec(
                self.raw,
                cc_centers_spec(move_cube_spec(m).centered_corners.raw),
            ),
    {
        self.multiply(m.centers())
    }
}

/// The parity bit of the rotation with the given centers: bit
/// `center_index_spec` of a fixed 24-bit table.
pub open spec fn center_parity_spec(raw: u64) -> bool {
    (0b111100110011000000111100u64 >> center_index_spec(raw)) & 1 == 1
}

/// The exact outcome of validating a cube's raw words: the edges are
/// checked first, then the corners, then the centers, each with the
/// shared error taxonomy; the first failure wins.
pub open spec fn cube_validate_spec(cc: u64, e: u64) -> Result<(), MapError> {
    if cc != ((cc & 0x1f1f1f1f1fffffff) as u64) {
        Err(MapError::OutOfBounds)
    } else if !crate::cube::edge::edge_wf(e) {
        Err(MapError::OutOfBounds)
    } else if !crate::cube::edge::edge_is_perm(e) {
        Err(MapError::Duplicate)
    } else if crate::cube::edge::eori_sum(e, 12) % 2 != 0 {
        Err(MapError::Orientation)
    } else if !crate::cube::corner::corner_wf(cc_corners_spec(cc)) {
        Err(MapError::OutOfBounds)
    } else if !crate::cube::corner::corner_is_perm(cc_corners_spec(cc)) {
        Err(MapError::Duplicate)
    } else if cori_sum(cc_corners_spec(cc), 8) % 3 != 0 {
        Err(MapError::Orientation)
    } else if !center_in_catalog(cc_centers_spec(cc)) {
        Err(MapError::OutOfBounds)
    } else {
        Ok(())
    }
}

/// Whether the cube equals the rotation named by its own centers: the
/// solved state held in any of the 24 orientations.
pub open spec fn cube_is_solved_spec(c: Cube) -> bool {
    &&& center_index_spec(cc_centers_spec(c.centered_corners.raw)) < 24
    &&& c == rotation_cube_spec(
        center_index_spec(cc_centers_spec(c.centered_corners.raw)) as int,
    )
}

impl Cube {
    /// Whether this cube is the solved state, held in any of the 24
    /// whole-cube orientations.
    pub fn is_solved(self) -> (r: bool)
        ensures
            r == cube_is_solved_spec(self),
    {
        let idx = self.centers().index();
        if idx < 24 {
            let rc = rotation_cube(idx);
            self.centered_corners.raw == rc.centered_corners.raw && self.edges.set == rc.edges.set
        } else {
            false
        }
    }

    /// Whether the state can be reached from solved by the move catalog:
    /// trivial orientation residues and matching permutation parities
    /// once the rotation parity of the centers is taken into account.
    pub fn has_solution(self) -> (r: bool)
        requires
            cube_wf(self),
        ensures
            r == (cori_sum(cc_corners_spec(self.centered_corners.raw), 8) % 3 == 0
                && crate::cube::edge::eori_sum(self.edges.set, 12) % 2 == 0 && ((
            crate::cube::edge::edge_parity(self.edges.set) != crate::cube::corner::corner_parity(
                cc_corners_spec(self.centered_corners.raw),
            )) == center_parity_spec(cc_centers_spec(self.centered_corners.raw)))),
    {
        let cr = self.corners().orientation_residue();
        let er = self.edges.orientation_residue();
        let ep = self.edges.permutation_parity();
        let cp = self.corners().permutation_parity();
        let np = self.centers().permutation_parity();
        cr.index() == 0 && er.index() == 0 && ((ep != cp) == np)
    }

    /// Validates every component of the cube, edges first, then corners,
    /// then centers: exactly [`cube_validate_spec`].
    pub fn validate(self) -> (r: Result<(), MapError>)
        ensures
            r == cube_validate_spec(self.centered_corners.raw, self.edges.set),
            r is Ok ==> center_wf(cc_centers_spec(self.centered_corners.raw))
                && crate::cube::center::center_is_perm(
                cc_centers_spec(self.centered_corners.raw),
            ),
            r is Ok ==> crate::cube::cc_wf(self.centered_corners.raw),
    {
        if self.centered_corners.raw != (self.centered_corners.raw & 0x1f1f1f1f1fffffff) {
            return Err(MapError::OutOfBounds);
        }
        proof {
            lemma_cc_mask_merge(self.centered_corners.raw);
        }
        match self.edges.validate() {
            Err(e) => Err(e),
            Ok(_) => {
                match self.corners().validate() {
                    Err(e) => Err(e),
                    Ok(_) => {
                        match self.centers().validate() {
                            Err(e) => Err(e),
                            Ok(_) => Ok(()),
                        }
                    },
                }
            },
        }
    }

    /// Validates and wraps a pair of untrusted raw words. The unused high
    /// bits of the corner-and-center word are cleared first, as the
    /// persisted form allows them to carry nothing.
    pub fn from_raw(centered_corners: u64, edges: u64) -> (r: Result<Cube, MapError>)
        ensures
            ({
                let masked = (centered_corners & 0x1f1f1f1f1fffffff) as u64;
                &&& (r is Ok <==> cube_validate_spec(masked, edges) is Ok)
                &&& (r is Ok ==> r->Ok_0.centered_corners.raw == masked && r->Ok_0.edges.set
                    == edges && cube_valid(r->Ok_0) && center_in_catalog(cc_centers_spec(masked)))
                &&& (r is Err ==> r->Err_0 == cube_validate_spec(masked, edges)->Err_0)
            }),
    {
        let cube = Cube {
            centered_corners: CenteredCornerMap { raw: centered_corners & 0x1f1f1f1f1fffffff },
            edges: EdgeMap { set: edges },
        };
        match cube.validate() {
            Err(e) => Err(e),
            Ok(_) => {
                proof {
                    lemma_cc_mask_merge(centered_corners);
                }
                Ok(cube)
            },
        }
    }

    /// Applies one move: `self * m.cube()`.
    pub fn apply_move(self, m: Move) -> (r: Cube)
        requires
            cube_wf(self),
        ensures
            r == cube_mul_spec(self, move_cube_spec(m)),
            cube_wf(r),
    {
        let mc = m.cube();
        self.multiply(mc)
    }
}

/// A word masked to the corner and center fields is exactly the merge
/// of its corner part and its center part.
pub(crate) proof fn lemma_cc_mask_merge(x: u64)
    by (bit_vector)
    ensures
        (x & 0x1f1f1f1f1fffffff) == (((x & 0x1f1f1f1f1fffffff) & 0x1f1f1f1f1f1f1f1f) | ((x
            & 0x1f1f1f1f1fffffff) & 0xe0e0e0)),
{
}



impl crate::cube::corner::CornerMap {
    /// Applies a move's corner component: `self * m.corners()`.
    pub fn apply_move(self, m: Move) -> (r: crate::cube::corner::CornerMap)
        ensures
            r.raw == cm_mul_spec(
                self.raw,
                cc_corners_spec(move_cube_spec(m).centered_corners.raw),
            ),
    {
        self.multiply(m.corners())
    }

    /// Applies a face move's corner component.
    pub fn apply_face_move(self, m: FaceMove) -> (r: crate::cube::corner::CornerMap)
        ensures
            r.raw == cm_mul_spec(
                self.raw,
                cc_corners_spec(
                    move_cube_spec(move_of_facemove_spec(m)).centered_corners.raw,
                ),
            ),
    {
        self.multiply(m.corners())
    }
}

impl crate::cube::edge::EdgeMap {
    /// Applies a move's edge component: `self * m.edges()`.
    pub fn apply_move(self, m: Move) -> (r: crate::cube::edge::EdgeMap)
        requires
            crate::cube::edge::edge_wf(self.set),
        ensures
            r.set == em_mul_spec(self.set, move_cube_spec(m).edges.set),
    {
        let mc = m.cube();
        self.multiply(mc.edges())
    }

    /// Applies a face move's edge component.
    pub fn apply_face_move(self, m: FaceMove) -> (r: crate::cube::edge::EdgeMap)
        requires
            crate::cube::edge::edge_wf(self.set),
        ensures
            r.set == em_mul_spec(
                self.set,
                move_cube_spec(move_of_facemove_spec(m)).edges.set,
            ),
    {
        let mc = m.cube();
        self.multiply(mc.edges())
    }
}

impl Cube {
    /// Applies a face move: corners and edges turn, centers stay put.
    pub fn apply_face_move(self, m: FaceMove) -> (r: Cube)
        requires
            cube_wf(self),
        ensures
            cc_corners_spec(r.centered_corners.raw) == cm_mul_spec(
                cc_corners_spec(self.centered_corners.raw),
                cc_corners_spec(
                    move_cube_spec(move_of_facemove_spec(m)).centered_corners.raw,
                ),
            ),
            cc_centers_spec(r.centered_corners.raw) == cc_centers_spec(
                self.centered_corners.raw,
            ),
            r.edges.set == em_mul_spec(
                self.edges.set,
                move_cube_spec(move_of_facemove_spec(m)).edges.set,
            ),
            cube_wf(r),
    {
        let mc = m.cube();
        let corners = self.corners().multiply(mc.corners());
        let centers = self.centers();
        let edges = self.edges.multiply(mc.edges());
        proof {
            crate::cube::corner::lemma_cm_mul_wf(
                cc_corners_spec(self.centered_corners.raw),
                cc_corners_spec(mc.centered_corners.raw),
            );
            crate::cube::edge::lemma_em_mul_wf(self.edges.set, mc.edges.set);
        }
        Cube {
            centered_corners: crate::cube::CenteredCornerMap::new(centers, corners),
            edges,
        }
    }
}

impl FixedCentersCube {
    /// Applies a face move to both components.
    pub fn apply_face_move(self, m: FaceMove) -> (r: FixedCentersCube)
        requires
            crate::cube::fc_wf(self),
        ensures
            r.corners.raw == cm_mul_spec(
                self.corners.raw,
                cc_corners_spec(
                    move_cube_spec(move_of_facemove_spec(m)).centered_corners.raw,
                ),
            ),
            r.edges.set == em_mul_spec(
                self.edges.set,
                move_cube_spec(move_of_facemove_spec(m)).edges.set,
            ),
            crate::cube::fc_wf(r),
    {
        let mc = m.cube();
        FixedCentersCube {
            corners: self.corners.multiply(mc.corners()),
            edges: self.edges.multiply(mc.edges()),
        }
    }
}

} // verus!
