//! The coordinate bijections and the move catalog: index round trips,
//! ordinal casts, power relations and frame projection.
use cubie::cube::corner::{COIndex, CPIndex};
use cubie::moves::rotation_cube;
use cubie::{CornerMap, FaceMove, Move};

#[test]
fn corner_orientation_index_mapping() {
    for index in 0..2187 {
        let mut cube = CornerMap::default();
        cube.set_orientation_index(COIndex(index));
        assert_eq!(index, cube.orientation_index().0);
        assert_eq!(cube.validate(), Ok(()));
    }
}

#[test]
fn corner_premutation_index_mapping() {
    for index in 0..40320 {
        let mut cube = CornerMap::default();
        cube.set_permutation_index(CPIndex(index));
        assert_eq!(index, cube.permutation_index().0);
        assert_eq!(cube.validate(), Ok(()));
    }
}

#[test]
fn center_index_rotation_table() {
    for index in 0..24u8 {
        let cube = rotation_cube(index);
        assert_eq!(index, cube.centers().index());
        assert_eq!(
            cube.corners().permutation_parity() ^ cube.edges().permutation_parity(),
            cube.centers().permutation_parity()
        );
    }
}

#[test]
fn move_faceturn_cast() {
    let mut move_mask = (1u64 << 18) - 1;
    for i in 0..18 {
        move_mask ^= 1 << FaceMove::try_from_u8(i as u8).unwrap().index();
    }
    assert!(move_mask == 0);
    assert!(FaceMove::try_from_u8(18).is_err());

    assert_eq!(FaceMove::R1, FaceMove::R2.cw());
    assert_eq!(FaceMove::R3, FaceMove::R2.ccw());
    assert_eq!(FaceMove::B2, FaceMove::B2.two());
    assert_eq!(FaceMove::L2, FaceMove::L1.two());
    assert_eq!(FaceMove::R1, FaceMove::R1.cw());
    for mv in FaceMove::moves() {
        let (cw, two, ccw) = (mv.cw(), mv.two(), mv.ccw());
        if mv == cw {
            assert_eq!(mv, ccw.inverse(), "{:?} != {:?}.inverse()", mv, ccw);
            assert!(mv.fc_cube().apply_face_move(cw).apply_face_move(two).is_solved());
        } else if mv == two {
            assert_eq!(mv, two.inverse(), "{:?} != {:?}.inverse()", mv, ccw);
            assert!(mv.fc_cube().apply_face_move(two).is_solved());
        } else if mv == ccw {
            assert_eq!(mv, cw.inverse(), "{:?} != {:?}.inverse()", mv, ccw);
            assert!(mv.fc_cube().apply_face_move(ccw).apply_face_move(two).is_solved());
        } else {
            panic!(
                "mv = Move::{:?} not equal to any of (mv.cw(), mv.two(), mv.ccw()) = {:?}",
                mv,
                (cw, two, ccw)
            );
        }
    }
}

#[test]
fn move_turn_cast() {
    let mut move_mask = (1u64 << 54) - 1;
    for i in 0..54 {
        move_mask ^= 1 << Move::try_from_u8(i as u8).unwrap().index();
    }
    assert!(move_mask == 0);
    assert!(Move::try_from_u8(54).is_err());
    assert_eq!(Move::R1, Move::R2.cw());
    assert_eq!(Move::R3, Move::R2.ccw());
    assert_eq!(Move::X2, Move::X2.two());
    assert_eq!(Move::L2, Move::L1.two());
    assert_eq!(Move::R1, Move::R1.cw());
    for mv in Move::moves() {
        let (cw, two, ccw) = (mv.cw(), mv.two(), mv.ccw());
        if mv == cw {
            assert_eq!(mv, ccw.inverse(), "{:?} != {:?}.inverse()", mv, ccw);
            assert!(mv.cube().apply_move(cw).apply_move(two).is_solved());
        } else if mv == two {
            assert_eq!(mv, two.inverse(), "{:?} != {:?}.inverse()", mv, ccw);
            assert!(mv.cube().apply_move(two).is_solved());
        } else if mv == ccw {
            assert_eq!(mv, cw.inverse(), "{:?} != {:?}.inverse()", mv, ccw);
            assert!(mv.cube().apply_move(ccw).apply_move(two).is_solved());
        } else {
            panic!(
                "mv = Move::{:?} not equal to any of (mv.cw(), mv.two(), mv.ccw()) = {:?}",
                mv,
                (cw, two, ccw)
            );
        }
    }
}

#[test]
fn move_projection() {
    for mv in Move::moves() {
        for i in 0..24u8 {
            let rotation_cube_i = rotation_cube(i);
            let centers = rotation_cube_i.centers();
            let mv_mapped = mv.projection(centers);
            let with_rot = rotation_cube_i
                .multiply(mv_mapped.cube())
                .multiply(rotation_cube_i.inverse());
            assert_eq!(with_rot, mv.cube(), "[{:?}] {:?} -> {:?}", i, mv, mv_mapped);
        }
    }
}

#[test]
fn facemove_projection() {
    for mv in FaceMove::moves() {
        for i in 0..24u8 {
            let rotation_cube_i = rotation_cube(i);
            let centers = rotation_cube_i.centers();
            let with_rot = rotation_cube_i
                .multiply(mv.projection(centers).cube())
                .multiply(rotation_cube_i.inverse());
            assert_eq!(with_rot, mv.cube());
        }
    }
}

#[test]
fn orientation_index_of_identity_is_zero() {
    assert_eq!(CornerMap::default().orientation_index().0, 0);
    assert_eq!(CornerMap::default().permutation_index().0, 0);
}

#[test]
fn largest_coordinate_values_round_trip() {
    let mut cm = CornerMap::default();
    cm.set_orientation_index(COIndex(2186));
    assert_eq!(cm.orientation_index().0, 2186);
    let mut cm2 = CornerMap::default();
    cm2.set_permutation_index(CPIndex(40319));
    assert_eq!(cm2.permutation_index().0, 40319);
}
