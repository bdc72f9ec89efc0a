use twisty_cube::cube::Cube;
use twisty_cube::moves::{MoveNotation, Turn};
use twisty_cube::piece::CornerNotation as C;
use twisty_cube::piece::CornerRot::{XFacing as X, YFacing as Y, ZFacing as Z};
use twisty_cube::piece::EdgeNotation as N;
use twisty_cube::piece::EdgeRot::{Correct as Ok_, Incorrect as No};
use twisty_cube::piece::{Corner, CornerNotation, CornerRot, Edge, EdgeNotation, EdgeRot, PieceNotation};

use twisty_cube::moves::MoveNotation::{
    b, bp, d, dp, f, fp, l, lp, r, rp, u, up, x, xp, y, yp, z, zp, B, Bp, D, Dp, E, Ep, F, Fp, L, Lp, M, Mp, R, Rp,
    S, Sp, U, Up, B2, D2, E2, F2, L2, M2, R2, S2, U2, b2, d2, f2, l2, r2, u2, x2, y2, z2,
};

fn all_moves() -> Vec<MoveNotation> {
    vec![
        R, Rp, R2, r, rp, r2, U, Up, U2, u, up, u2, L, Lp, L2, l, lp, l2, D, Dp, D2, d, dp, d2, F, Fp, F2, f, fp,
        f2, B, Bp, B2, b, bp, b2, M, Mp, M2, E, Ep, E2, S, Sp, S2, x, xp, x2, y, yp, y2, z, zp, z2,
    ]
}

fn after(ms: &[MoveNotation]) -> Cube {
    let mut cube = Cube::new();
    assert_eq!(cube.apply_moves(ms), Ok(()));
    cube
}

fn corner_value(c: &Corner) -> usize {
    match c.0 {
        CornerRot::YFacing => 0,
        CornerRot::XFacing => 1,
        CornerRot::ZFacing => 2,
    }
}

fn edge_value(e: &Edge) -> usize {
    match e.0 {
        EdgeRot::Correct => 0,
        EdgeRot::Incorrect => 1,
    }
}

fn inversions(h: &[usize]) -> usize {
    let mut n = 0;
    for j in 0..h.len() {
        for i in 0..j {
            if h[i] > h[j] {
                n += 1;
            }
        }
    }
    n
}

fn is_permutation(h: &[usize]) -> bool {
    let mut seen = vec![false; h.len()];
    for &k in h {
        if k >= h.len() || seen[k] {
            return false;
        }
        seen[k] = true;
    }
    true
}

fn check_orientations(cube: &Cube) {
    let ch: Vec<usize> = cube.corners.iter().map(|c| c.1.index()).collect();
    let eh: Vec<usize> = cube.edges.iter().map(|e| e.1.index()).collect();
    assert!(is_permutation(&ch));
    assert!(is_permutation(&eh));
    assert_eq!(cube.corners.iter().map(corner_value).sum::<usize>() % 3, 0);
    assert_eq!(cube.edges.iter().map(edge_value).sum::<usize>() % 2, 0);
}

fn parities_agree(cube: &Cube) -> bool {
    let ch: Vec<usize> = cube.corners.iter().map(|c| c.1.index()).collect();
    let eh: Vec<usize> = cube.edges.iter().map(|e| e.1.index()).collect();
    inversions(&ch) % 2 == inversions(&eh) % 2
}

fn corners_of(rows: [(CornerRot, CornerNotation); 8]) -> [Corner; 8] {
    rows.map(|(o, h)| Corner(o, h))
}

fn edges_of(rows: [(EdgeRot, EdgeNotation); 12]) -> [Edge; 12] {
    rows.map(|(o, h)| Edge(o, h))
}

#[test]
fn right_turn_gives_the_tabled_state() {
    let cube = after(&[R]);
    assert_eq!(
        cube.corners,
        corners_of([(Z, C::E), (Y, C::B), (Y, C::C), (X, C::A), (X, C::H), (Y, C::F), (Y, C::G), (Z, C::D)])
    );
    assert_eq!(
        cube.edges,
        edges_of([
            (Ok_, N::Q), (Ok_, N::J), (Ok_, N::K), (Ok_, N::L), (Ok_, N::T), (Ok_, N::N), (Ok_, N::O), (Ok_, N::P),
            (Ok_, N::M), (Ok_, N::R), (Ok_, N::S), (Ok_, N::I),
        ])
    );
}

#[test]
fn front_turn_flips_its_edges() {
    let cube = after(&[F]);
    assert_eq!(
        cube.corners,
        corners_of([(X, C::B), (Z, C::F), (Y, C::C), (Y, C::D), (Z, C::A), (X, C::E), (Y, C::G), (Y, C::H)])
    );
    assert_eq!(
        cube.edges,
        edges_of([
            (Ok_, N::I), (No, N::R), (Ok_, N::K), (Ok_, N::L), (Ok_, N::M), (No, N::Q), (Ok_, N::O), (Ok_, N::P),
            (No, N::J), (No, N::N), (Ok_, N::S), (Ok_, N::T),
        ])
    );
}

#[test]
fn upper_turn_twists_nothing() {
    let cube = after(&[U]);
    let solved = Cube::new();
    assert_eq!(cube.corners[0], solved.corners[3]);
    assert_eq!(cube.corners[1], solved.corners[0]);
    assert_eq!(cube.corners[2], solved.corners[1]);
    assert_eq!(cube.corners[3], solved.corners[2]);
    assert_eq!(cube.edges[0], solved.edges[3]);
    assert_eq!(cube.edges[1], solved.edges[0]);
    assert_eq!(cube.edges[2], solved.edges[1]);
    assert_eq!(cube.edges[3], solved.edges[2]);
    for i in 4..8 {
        assert_eq!(cube.corners[i], solved.corners[i]);
    }
    for i in 4..12 {
        assert_eq!(cube.edges[i], solved.edges[i]);
    }
}

#[test]
fn middle_layer_follows_the_left_face() {
    let cube = after(&[M]);
    let solved = Cube::new();
    assert_eq!(cube.corners, solved.corners);
    // up-back goes to up-front, on to down-front, down-back and round.
    assert_eq!(cube.edges[1], Edge(EdgeRot::Incorrect, EdgeNotation::L));
    assert_eq!(cube.edges[5], Edge(EdgeRot::Incorrect, EdgeNotation::J));
    assert_eq!(cube.edges[7], Edge(EdgeRot::Incorrect, EdgeNotation::N));
    assert_eq!(cube.edges[3], Edge(EdgeRot::Incorrect, EdgeNotation::P));
    // The left face carries its up edge to the front in the same sense.
    let left = after(&[L]);
    assert_eq!(left.edges[9], Edge(EdgeRot::Correct, EdgeNotation::K));
}

#[test]
fn r_then_r_prime_is_solved() {
    let cube = after(&[R, Rp]);
    let solved = Cube::new();
    assert_eq!(cube.corners, solved.corners);
    assert_eq!(cube.edges, solved.edges);
    assert_ne!(after(&[R]), solved);
}

#[test]
fn four_r_or_two_r2_is_solved() {
    assert_eq!(after(&[R, R, R, R]), Cube::new());
    assert_eq!(after(&[R2, R2]), Cube::new());
    assert_ne!(after(&[R, R]), Cube::new());
    assert_ne!(after(&[R, R, R]), Cube::new());
}

#[test]
fn scramble_and_its_inverse_is_solved() {
    let scramble = [R, U, Rp, Up, Rp, F, R, Fp];
    let mut cube = Cube::new();
    assert_eq!(cube.apply_moves(&scramble), Ok(()));
    assert_ne!(cube, Cube::new());
    check_orientations(&cube);
    assert!(parities_agree(&cube));
    for m in scramble.iter().rev() {
        assert_eq!(cube.apply_move(m.inverse()), Ok(()));
    }
    assert_eq!(cube, Cube::new());
}

#[test]
fn every_move_is_undone_by_its_inverse() {
    let start = after(&[R, U, Rp, Up, Rp, F, R, Fp, M, y, l]);
    for m in all_moves() {
        let mut cube = start.clone();
        assert_eq!(cube.apply_move(m), Ok(()));
        assert_ne!(cube, start);
        assert_eq!(cube.apply_move(m.inverse()), Ok(()));
        assert_eq!(cube, start);
        assert_eq!(m.inverse().inverse(), m);
    }
}

#[test]
fn inverse_tokens() {
    assert_eq!(R.inverse(), Rp);
    assert_eq!(Rp.inverse(), R);
    assert_eq!(R2.inverse(), R2);
    assert_eq!(u.inverse(), up);
    assert_eq!(Ep.inverse(), E);
    assert_eq!(S2.inverse(), S2);
    assert_eq!(z.inverse(), zp);
    assert_eq!(l2.inverse(), l2);
    assert_eq!(y2.inverse(), y2);
}

#[test]
fn a_half_turn_is_two_quarter_turns() {
    let start = after(&[F, U, Lp, D, B, Rp, E]);
    let mut count = 0;
    for m in all_moves() {
        if let Some(h) = m.double() {
            count += 1;
            let mut a = start.clone();
            let mut b_ = start.clone();
            assert_eq!(a.apply_move(h), Ok(()));
            assert_eq!(b_.apply_move(m), Ok(()));
            assert_eq!(b_.apply_move(m), Ok(()));
            assert_eq!(a, b_);
        }
    }
    assert_eq!(count, 18);
    assert_eq!(all_moves().len(), 54);
    assert_eq!(R.double(), Some(R2));
    assert_eq!(M.double(), Some(M2));
    assert_eq!(Rp.double(), None);
    assert_eq!(r.double(), Some(r2));
    assert_eq!(x.double(), Some(x2));
    assert_eq!(rp.double(), None);
    assert_eq!(R2.double(), None);
}

#[test]
fn face_turns_stay_in_the_group() {
    let faces = [R, Rp, R2, U, Up, U2, L, Lp, L2, D, Dp, D2, F, Fp, F2, B, Bp, B2];
    let mut cube = Cube::new();
    let mut k: usize = 7;
    for _ in 0..400 {
        k = (k * 31 + 11) % 1009;
        assert_eq!(cube.apply_move(faces[k % faces.len()]), Ok(()));
        check_orientations(&cube);
        assert!(parities_agree(&cube));
    }
}

#[test]
fn inner_layers_keep_orientations_and_toggle_parity() {
    let mut cube = Cube::new();
    let mut inner = 0;
    let all = all_moves();
    let mut k: usize = 3;
    for _ in 0..400 {
        k = (k * 37 + 5) % 1013;
        let m = all[k % all.len()];
        inner += match m {
            M | Mp | E | Ep | S | Sp | r | rp | u | up | l | lp | d | dp | f | fp | b | bp | x | xp | y | yp | z
            | zp => 1,
            M2 | E2 | S2 | r2 | u2 | l2 | d2 | f2 | b2 | x2 | y2 | z2 => 2,
            _ => 0,
        };
        assert_eq!(cube.apply_move(m), Ok(()));
        check_orientations(&cube);
        assert_eq!(parities_agree(&cube), inner % 2 == 0);
    }
    let one = after(&[M]);
    assert!(!parities_agree(&one));
}

#[test]
fn wide_turn_is_face_with_inner_layer() {
    assert_eq!(after(&[r]), after(&[R, Mp]));
    assert_eq!(after(&[l]), after(&[L, M]));
    assert_eq!(after(&[u]), after(&[U, Ep]));
    assert_eq!(after(&[d]), after(&[D, E]));
    assert_eq!(after(&[f]), after(&[F, S]));
    assert_eq!(after(&[b]), after(&[B, Sp]));
    assert_ne!(after(&[r]), after(&[R, M]));
}

#[test]
fn whole_cube_turns_are_three_layers() {
    assert_eq!(after(&[x]), after(&[R, Mp, Lp]));
    assert_eq!(after(&[y]), after(&[U, Ep, Dp]));
    assert_eq!(after(&[z]), after(&[F, S, Bp]));
    assert_eq!(after(&[x]), after(&[r, Lp]));
    assert_eq!(after(&[x, x, x, x]), Cube::new());
    // Turning the whole cube moves all twenty pieces.
    let solved = Cube::new();
    let turned = after(&[x]);
    for i in 0..8 {
        assert_ne!(turned.corners[i], solved.corners[i]);
    }
    for i in 0..12 {
        assert_ne!(turned.edges[i], solved.edges[i]);
    }
    // A face turn seen from the turned cube is the turn of another face.
    assert_eq!(after(&[x, U, xp]), after(&[F]));
    assert_eq!(after(&[y, R, yp]), after(&[B]));
    assert_eq!(after(&[z, U, zp]), after(&[L]));
}

#[test]
fn known_orders_of_short_sequences() {
    let mut cube = Cube::new();
    for i in 1..=6 {
        assert_eq!(cube.apply_moves(&[R, U, Rp, Up]), Ok(()));
        assert_eq!(cube == Cube::new(), i == 6);
    }
    for i in 1..=105 {
        assert_eq!(cube.apply_moves(&[R, U]), Ok(()));
        assert_eq!(cube == Cube::new(), i == 105);
    }
    // Two inner layers that share no edge: only centres would be carried round.
    assert_eq!(cube.apply_moves(&[M, E, Mp, Ep]), Ok(()));
    assert_eq!(cube, Cube::new());
}

#[test]
fn pair_exchange_sequence_swaps_two_corners_and_two_edges() {
    let cube = after(&[R, U, Rp, Up, Rp, F, R2, Up, Rp, Up, R, U, Rp, Fp]);
    let solved = Cube::new();
    let mut expected = Cube::new();
    expected.corners.swap(0, 3);
    expected.edges.swap(0, 2);
    assert_eq!(cube, expected);
    assert_ne!(cube, solved);
}

#[test]
fn turn_and_turn_back_agree_with_the_tokens() {
    let layers = [
        (Turn::R, R, Rp), (Turn::U, U, Up), (Turn::L, L, Lp), (Turn::D, D, Dp), (Turn::F, F, Fp), (Turn::B, B, Bp),
        (Turn::M, M, Mp), (Turn::E, E, Ep), (Turn::S, S, Sp),
    ];
    let start = after(&[F, U, Lp, D, B, Rp]);
    for (t, m, mp) in layers {
        let mut a = start.clone();
        assert_eq!(a.turn(t), Ok(()));
        let mut c = start.clone();
        assert_eq!(c.apply_move(m), Ok(()));
        assert_eq!(a, c);
        let mut a = start.clone();
        assert_eq!(a.turn_back(t), Ok(()));
        let mut c = start.clone();
        assert_eq!(c.apply_move(mp), Ok(()));
        assert_eq!(a, c);
    }
}

#[test]
fn empty_sequence_changes_nothing() {
    assert_eq!(after(&[]), Cube::new());
}
