//! The shared group shape of the cube state types: each has an identity
//! element and, for well-formed bijective states, an inverse.
use crate::cube::center::{center_is_perm, center_wf};
use crate::cube::corner::{corner_is_perm, corner_wf};
use crate::cube::edge::{edge_is_perm, edge_wf};
use crate::cube::{cc_centers_spec, cc_corners_spec, cube_wf, CenterMap, CornerMap, Cube, EdgeMap,
    FixedCentersCube};
use vstd::prelude::*;

verus! {

/// What every cube state type offers beyond multiplication: the identity
/// element, and an inverse for every state that is a well-formed
/// bijection.
pub trait CubeGroupExt: Sized {
    /// The states the group operations are defined on.
    spec fn group_wf(self) -> bool;

    /// The state that undoes this one.
    fn group_inverse(self) -> Self
        requires
            self.group_wf(),
    ;

    /// The do-nothing state.
    fn identity() -> Self;
}

impl CubeGroupExt for CornerMap {
    open spec fn group_wf(self) -> bool {
        corner_wf(self.raw) && corner_is_perm(self.raw)
    }

    fn group_inverse(self) -> Self {
        CornerMap::inverse(self)
    }

    fn identity() -> Self {
        CornerMap::default()
    }
}

impl CubeGroupExt for EdgeMap {
    open spec fn group_wf(self) -> bool {
        edge_wf(self.set) && edge_is_perm(self.set)
    }

    fn group_inverse(self) -> Self {
        EdgeMap::inverse(self)
    }

    fn identity() -> Self {
        EdgeMap::default()
    }
}

impl CubeGroupExt for CenterMap {
    open spec fn group_wf(self) -> bool {
        center_wf(self.raw) && center_is_perm(self.raw)
    }

    fn group_inverse(self) -> Self {
        CenterMap::inverse(self)
    }

    fn identity() -> Self {
        CenterMap::default()
    }
}

impl CubeGroupExt for Cube {
    open spec fn group_wf(self) -> bool {
        &&& cube_wf(self)
        &&& corner_is_perm(cc_corners_spec(self.centered_corners.raw))
        &&& center_is_perm(cc_centers_spec(self.centered_corners.raw))
        &&& edge_is_perm(self.edges.set)
    }

    fn group_inverse(self) -> Self {
        Cube::inverse(self)
    }

    fn identity() -> Self {
        Cube::default()
    }
}

impl CubeGroupExt for FixedCentersCube {
    open spec fn group_wf(self) -> bool {
        &&& crate::cube::fc_wf(self)
        &&& corner_is_perm(self.corners.raw)
        &&& edge_is_perm(self.edges.set)
    }

    fn group_inverse(self) -> Self {
        FixedCentersCube::inverse(self)
    }

    fn identity() -> Self {
        FixedCentersCube::default()
    }
}

} // verus!
