//! End-to-end solving: a fixed pseudo-random scramble is undone by the
//! returned sequence within the move budget, and a solved cube needs no
//! moves at all.
use cubie::solver::Solver;
use cubie::{Cube, Move};

#[test]
fn scramble_and_solve_returns_to_identity() {
    let mut solver = Solver::default();
    while solver.initialize_tables_incremental() > 0 {}
    let mut rng = oorandom::Rand32::new(0x5eed);
    let mut scrambled = Cube::default();
    for _ in 0..30 {
        let mv = Move::try_from_u8((rng.rand_u32() % 36) as u8).unwrap();
        scrambled = scrambled.apply_move(mv);
    }
    let sequence = solver.search(scrambled).unwrap();
    assert!(sequence.len() <= 21);
    let mut applied = scrambled;
    for mv in sequence {
        applied = applied.apply_move(mv);
    }
    assert!(applied.is_solved());
}

#[test]
fn solving_a_solved_cube_needs_no_moves() {
    let mut solver = Solver::default();
    while solver.initialize_tables_incremental() > 0 {}
    let sequence = solver.search(Cube::default()).unwrap();
    assert_eq!(sequence.len(), 0);
}

#[test]
fn solving_a_rotated_solved_cube_needs_no_moves() {
    let mut solver = Solver::default();
    while solver.initialize_tables_incremental() > 0 {}
    let rotated = Cube::default().apply_move(Move::Y1).apply_move(Move::X2);
    let sequence = solver.search(rotated).unwrap();
    assert_eq!(sequence.len(), 0);
}

#[test]
fn urf_conjugation_has_order_three() {
    let orig = cubie::solver::cube::CubieCube::from_coords(1234, 567, 89012, 345);
    let mut c = orig;
    c.urf_conjugate();
    assert_ne!(c, orig);
    c.urf_conjugate();
    assert_ne!(c, orig);
    c.urf_conjugate();
    assert_eq!(c, orig);
}

#[test]
fn urf_move_renaming_is_a_bijection() {
    for u in 0..6usize {
        let mut seen = [false; 18];
        for m in 0..18usize {
            let r = cubie::solver::cube::urf_move(u, m) as usize;
            assert!(r < 18);
            assert!(!seen[r]);
            seen[r] = true;
        }
    }
}
