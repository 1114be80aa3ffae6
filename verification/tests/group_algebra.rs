//! The group algebra on whole cubes: closure of the move catalog under
//! composition, inverses, the fused inverse-multiply, recognition of the
//! solved state in every orientation, and rejection of illegal raw words.
use cubie::{CenterMap, CornerMap, Cube, EdgeMap, MapError, Move};

struct CubeGroupPowers {
    cw: Cube,
    two: Cube,
    ccw: Cube,
}

fn extend_cw(mv: Move, cw: Cube) -> CubeGroupPowers {
    assert_eq!(cw, mv.cw().cube(), "unexpected clockwise element for {:?}", mv.cw());
    let two = cw.multiply(cw);
    assert_eq!(two, mv.two().cube(), "unexpected double element for {:?}", mv.two());
    let ccw = two.multiply(cw);
    assert_eq!(ccw, mv.ccw().cube(), "unexpected counter-clockwise element for {:?}", mv.ccw());
    CubeGroupPowers { cw, two, ccw }
}

#[test]
fn bootstrap_from_generating_set() {
    let u_cw = Move::U1.cube();
    let y_cw = Move::Y1.cube();
    let x_cw = Move::X1.cube();

    let u = extend_cw(Move::U1, u_cw);
    let y = extend_cw(Move::Y1, y_cw);
    let x = extend_cw(Move::X1, x_cw);

    let z = extend_cw(Move::Z1, y.cw.multiply(x.ccw).multiply(y.ccw));
    let r = extend_cw(Move::R1, z.ccw.multiply(u.cw).multiply(z.cw));

    let l = extend_cw(Move::L1, y.two.multiply(r.cw).multiply(y.two));
    let b = extend_cw(Move::B1, y.cw.multiply(r.cw).multiply(y.ccw));
    let f = extend_cw(Move::F1, y.ccw.multiply(r.cw).multiply(y.cw));

    let d_ccw = r
        .two
        .multiply(l.two)
        .multiply(u.cw)
        .multiply(f.two)
        .multiply(b.two)
        .multiply(u.cw)
        .multiply(f.two)
        .multiply(r.two)
        .multiply(f.two)
        .multiply(b.two)
        .multiply(u.two)
        .multiply(l.two)
        .multiply(u.two)
        .multiply(l.two)
        .multiply(r.two)
        .multiply(u.two)
        .multiply(r.two)
        .multiply(u.two)
        .multiply(r.two)
        .multiply(f.two)
        .multiply(u.ccw)
        .multiply(r.two)
        .multiply(b.two)
        .multiply(r.two)
        .multiply(l.two)
        .multiply(f.two)
        .multiply(l.two)
        .multiply(u.cw)
        .multiply(b.two)
        .multiply(f.two)
        .multiply(u.cw);

    let d = extend_cw(Move::D1, d_ccw.multiply(d_ccw).multiply(d_ccw));

    let e = extend_cw(Move::E1, y.ccw.multiply(u.cw).multiply(d.ccw));
    let s = extend_cw(Move::S1, z.cw.multiply(f.ccw).multiply(b.cw));
    let m = extend_cw(Move::M1, x.ccw.multiply(r.cw).multiply(l.ccw));

    extend_cw(Move::Uw1, d.cw.multiply(y.cw));
    extend_cw(Move::Dw1, u.cw.multiply(y.ccw));

    extend_cw(Move::Fw1, b.cw.multiply(z.cw));
    extend_cw(Move::Bw1, f.cw.multiply(z.ccw));

    extend_cw(Move::Rw1, l.cw.multiply(x.cw));
    extend_cw(Move::Lw1, r.cw.multiply(x.ccw));

    assert_ne!(e.cw, u.ccw);
    assert_ne!(s.cw, s.ccw);
    assert_ne!(m.cw, s.cw);
    assert_ne!(l.cw, l.ccw);
    assert_ne!(x.cw, y.ccw);
    assert_ne!(x.cw, x.ccw);
    assert_ne!(x.two, z.two);
}

#[test]
fn cube_is_direct_product() {
    let mut rng1 = oorandom::Rand32::new(0xdeadbeef);
    let mut cube = Cube::default();
    let mut corners = CornerMap::default();
    let mut edges = EdgeMap::default();
    let mut centers = CenterMap::default();
    for _ in 0..400 {
        let mv = Move::try_from_u8((rng1.rand_u32() % 36) as u8).unwrap();
        cube = cube.apply_move(mv);
        corners = corners.apply_move(mv);
        edges = edges.apply_move(mv);
        centers = centers.apply_move(mv);
        assert_eq!(cube.centers(), centers);
        assert_eq!(cube.edges(), edges);
        assert_eq!(cube.corners(), corners);
    }
}

#[test]
fn cube_inverse_multiply() {
    let mut rng1 = oorandom::Rand32::new(0xdeadbeef);
    let mut x = Cube::default();
    for _ in 0..200 {
        let mv = Move::try_from_u8((rng1.rand_u32() % 36) as u8).unwrap();
        x = x.apply_move(mv);
        assert!(x.multiply(x.inverse()).is_solved());
        assert!(x.inverse().multiply(x).is_solved());
        assert!(x.inverse_multiply(x).is_solved());
        let mut y = Cube::default();
        for _ in 0..20 {
            let mv2 = Move::try_from_u8((rng1.rand_u32() % 36) as u8).unwrap();
            y = y.apply_move(mv2);
        }
        assert_eq!(x.inverse().multiply(y), x.inverse_multiply(y));
    }
}

#[test]
fn move_vs_facemove() {
    let mut rng1 = oorandom::Rand32::new(0xdeadbeef);
    let mut cube = Cube::default();
    for _ in 0..20 {
        for fm in cubie::FaceMove::moves() {
            assert_eq!(cube.corners().apply_face_move(fm), cube.corners().apply_move(fm.to_move()));
            assert_eq!(cube.edges().apply_face_move(fm), cube.edges().apply_move(fm.to_move()));
        }
        let mv = Move::try_from_u8((rng1.rand_u32() % 36) as u8).unwrap();
        cube = cube.apply_move(mv);
    }
}

#[test]
fn is_rotated_cube_solved() {
    let mut rng1 = oorandom::Rand32::new(0xdeadbeef);
    let mut rng2 = oorandom::Rand32::new(0xeeff2101);
    let mut cube = Cube::default();
    let mut bitset = 0u32;
    for _ in 0..500 {
        assert!(cube.is_solved());
        bitset |= 1 << cube.centers().index();
        let rotation = Move::try_from_u8((rng1.rand_u32() % 9 + 27) as u8).unwrap();
        cube = cube.apply_move(rotation);
        let turn = Move::try_from_u8((rng2.rand_u32() % 27) as u8).unwrap();
        assert!(cube.apply_move(turn).is_solved() == false);
    }
    assert!(bitset.count_ones() == 24, "Not all rotations checked, try increasing iteration count.");
}

#[test]
fn associativity_on_scrambles() {
    let a = Cube::default().apply_move(Move::R1).apply_move(Move::U1);
    let b = Cube::default().apply_move(Move::F2).apply_move(Move::D3);
    let c = Cube::default().apply_move(Move::L1).apply_move(Move::B2);
    assert_eq!(a.multiply(b).multiply(c), a.multiply(b.multiply(c)));
    assert_eq!(a.multiply(Cube::default()), a);
    assert_eq!(Cube::default().multiply(a), a);
}

#[test]
fn duplicate_raw_corner_word_is_rejected() {
    // Two slots claim position 1.
    let r = CornerMap::from_raw(0x0706050403020101);
    assert_eq!(r.err(), Some(MapError::Duplicate));
}

#[test]
fn unbalanced_corner_twist_is_rejected() {
    // The identity permutation with one clockwise twist added.
    let r = CornerMap::from_raw(0x0706050403020108);
    assert_eq!(r.err(), Some(MapError::Orientation));
}

#[test]
fn out_of_range_corner_field_is_rejected() {
    // A slot byte beyond the legal range.
    let r = CornerMap::from_raw(0x07060504030201FF);
    assert_eq!(r.err(), Some(MapError::OutOfBounds));
}

#[test]
fn unbalanced_edge_flip_is_rejected() {
    let identity = EdgeMap::default().set;
    let r = EdgeMap::from_raw(identity | 0x10);
    assert_eq!(r.err(), Some(MapError::Orientation));
}

#[test]
fn duplicate_raw_edge_word_is_rejected() {
    // Slot 1 claims position 0, as does slot 0.
    let identity = EdgeMap::default().set;
    let r = EdgeMap::from_raw(identity & !(0b11111u64 << 5));
    assert_eq!(r.err(), Some(MapError::Duplicate));
}

#[test]
fn cube_raw_roundtrip() {
    let c = Cube::default().apply_move(Move::R1).apply_move(Move::E2);
    let (cc, e) = c.raw();
    let back = Cube::from_raw(cc, e).unwrap();
    assert_eq!(back, c);
}

#[test]
fn stray_bits_in_corner_word_fail_validation() {
    // A bit outside the corner and center fields makes the word invalid.
    let (cc, e) = Cube::default().raw();
    let c = Cube::from_raw_unchecked(cc | 0x2000_0000, e);
    assert_eq!(c.validate(), Err(MapError::OutOfBounds));
}

#[test]
fn from_raw_clears_stray_bits() {
    // The checked constructor masks the word before validating it.
    let (cc, e) = Cube::default().raw();
    let back = Cube::from_raw(cc | 0x2000_0000, e).unwrap();
    assert_eq!(back, Cube::default());
}
