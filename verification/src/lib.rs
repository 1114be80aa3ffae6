//! Group-theoretic model of the 3x3x3 twisty puzzle.
//!
//! Cube sub-states (corners, edges, centers) are bit-packed permutation and
//! orientation maps with closed multiplication, inversion and coordinate
//! encodings, together with a two-phase heuristic solver over
//! symmetry-compressed coordinates and pruning tables.
use vstd::prelude::*;

pub mod cube;
pub mod group;
pub mod moves;
pub mod solver;
pub mod tile;

pub use cube::center::CenterMap;
pub use cube::corner::Corner;
pub use cube::corner::CornerMap;
pub use cube::edge::Edge;
pub use cube::edge::EdgeMap;
pub use cube::Cube;
pub use cube::FixedCentersCube;
pub use moves::FaceMove;
pub use moves::Move;
pub use tile::TileMap;

verus! {

/// Why a raw bit pattern fails validation.
#[derive(Clone, Copy, Debug, PartialEq, Eq, Structural)]
pub enum MapError {
    /// Two piece slots map to the same position: not a bijection.
    Duplicate,
    /// The orientation sum does not have the residue required of a state
    /// reachable from solved.
    Orientation,
    /// A field encodes a position index outside its valid range.
    OutOfBounds,
}

/// One of the six faces of the cube.
#[derive(Clone, Copy, Debug, PartialEq, Eq, Structural, Hash)]
pub enum Face {
    Up,
    Down,
    Front,
    Back,
    Right,
    Left,
}

pub open spec fn face_index_spec(f: Face) -> u8 {
    match f {
        Face::Up => 0,
        Face::Down => 1,
        Face::Front => 2,
        Face::Back => 3,
        Face::Right => 4,
        Face::Left => 5,
    }
}

pub open spec fn face_from_index_spec(v: u8) -> Face
    recommends
        v < 6,
{
    if v == 0 {
        Face::Up
    } else if v == 1 {
        Face::Down
    } else if v == 2 {
        Face::Front
    } else if v == 3 {
        Face::Back
    } else if v == 4 {
        Face::Right
    } else {
        Face::Left
    }
}

pub open spec fn face_opposite_spec(f: Face) -> Face {
    match f {
        Face::Up => Face::Down,
        Face::Down => Face::Up,
        Face::Front => Face::Back,
        Face::Back => Face::Front,
        Face::Right => Face::Left,
        Face::Left => Face::Right,
    }
}

impl Face {
    /// The ordinal of this face, `0..6`.
    pub fn index(self) -> (r: u8)
        ensures
            r == face_index_spec(self),
            r < 6,
    {
        match self {
            Face::Up => 0,
            Face::Down => 1,
            Face::Front => 2,
            Face::Back => 3,
            Face::Right => 4,
            Face::Left => 5,
        }
    }

    /// The face with the given ordinal.
    pub fn from_index(v: u8) -> (r: Face)
        requires
            v < 6,
        ensures
            r == face_from_index_spec(v),
            face_index_spec(r) == v,
    {
        if v == 0 {
            Face::Up
        } else if v == 1 {
            Face::Down
        } else if v == 2 {
            Face::Front
        } else if v == 3 {
            Face::Back
        } else if v == 4 {
            Face::Right
        } else {
            Face::Left
        }
    }

    /// The 6 faces in ordinal order.
    pub fn faces() -> (r: Vec<Face>)
        ensures
            r@.len() == 6,
            forall|i: int| 0 <= i < 6 ==> r@[i] == face_from_index_spec(i as u8),
    {
        let mut v: Vec<Face> = Vec::new();
        let mut i: u8 = 0;
        while i < 6
            invariant
                i <= 6,
                v@.len() == i as int,
                forall|j: int| 0 <= j < i as int ==> v@[j] == face_from_index_spec(j as u8),
            decreases 6 - i,
        {
            v.push(Face::from_index(i));
            i = i + 1;
        }
        v
    }

    /// The face on the opposite side of the cube.
    pub fn opposite(self) -> (r: Face)
        ensures
            r == face_opposite_spec(self),
    {
        match self {
            Face::Up => Face::Down,
            Face::Down => Face::Up,
            Face::Front => Face::Back,
            Face::Back => Face::Front,
            Face::Right => Face::Left,
            Face::Left => Face::Right,
        }
    }
}

} // verus!
