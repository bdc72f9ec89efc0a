use twisty_cube::cube::{Comutation, Cube, CubeError};
use twisty_cube::piece::{
    Corner, CornerNotation, CornerRot, Edge, EdgeNotation, EdgeRot, PieceNotation, RotDirection,
};

fn e(s: EdgeNotation) -> Comutation<EdgeNotation> {
    Comutation(s, None)
}

fn c(s: CornerNotation) -> Comutation<CornerNotation> {
    Comutation(s, None)
}

#[test]
fn edge_rotate_flips_whatever_the_direction() {
    let x = Edge(EdgeRot::Correct, EdgeNotation::K);
    assert_eq!(x.rotate(RotDirection::Right), Edge(EdgeRot::Incorrect, EdgeNotation::K));
    assert_eq!(x.rotate(RotDirection::Left), Edge(EdgeRot::Incorrect, EdgeNotation::K));
    let y = Edge(EdgeRot::Incorrect, EdgeNotation::T);
    assert_eq!(y.rotate(RotDirection::Right), Edge(EdgeRot::Correct, EdgeNotation::T));
    assert_eq!(y.rotate(RotDirection::Left), Edge(EdgeRot::Correct, EdgeNotation::T));
}

#[test]
fn corner_rotate_follows_the_table() {
    let h = CornerNotation::G;
    let y = Corner(CornerRot::YFacing, h);
    let x = Corner(CornerRot::XFacing, h);
    let z = Corner(CornerRot::ZFacing, h);
    assert_eq!(y.rotate(RotDirection::Right), x);
    assert_eq!(x.rotate(RotDirection::Right), z);
    assert_eq!(z.rotate(RotDirection::Right), y);
    assert_eq!(y.rotate(RotDirection::Left), z);
    assert_eq!(z.rotate(RotDirection::Left), x);
    assert_eq!(x.rotate(RotDirection::Left), y);
}

#[test]
fn rot_direction_reverse() {
    assert_eq!(RotDirection::Right.reverse(), RotDirection::Left);
    assert_eq!(RotDirection::Left.reverse(), RotDirection::Right);
}

#[test]
fn variants_are_in_index_order() {
    let ev = EdgeNotation::variants();
    assert_eq!(ev.len(), 12);
    for (i, s) in ev.iter().enumerate() {
        assert_eq!(s.index(), i);
    }
    assert_eq!(ev[0], EdgeNotation::I);
    assert_eq!(ev[11], EdgeNotation::T);
    let cv = CornerNotation::variants();
    assert_eq!(cv.len(), 8);
    for (i, s) in cv.iter().enumerate() {
        assert_eq!(s.index(), i);
    }
    assert_eq!(cv[0], CornerNotation::A);
    assert_eq!(cv[7], CornerNotation::H);
}

#[test]
fn new_cube_is_solved() {
    let cube = Cube::new();
    for (i, s) in CornerNotation::variants().iter().enumerate() {
        assert_eq!(cube.corners[i], Corner(CornerRot::YFacing, *s));
    }
    for (i, s) in EdgeNotation::variants().iter().enumerate() {
        assert_eq!(cube.edges[i], Edge(EdgeRot::Correct, *s));
    }
}

#[test]
fn pieces_are_listed_by_slot() {
    let mut cube = Cube::new();
    cube.pair_swap(c(CornerNotation::A), c(CornerNotation::B), e(EdgeNotation::I), e(EdgeNotation::J));
    let cs = cube.corner_pieces();
    assert_eq!(cs.len(), 8);
    assert_eq!(cs[0], (CornerNotation::A, Corner(CornerRot::YFacing, CornerNotation::B)));
    assert_eq!(cs[1], (CornerNotation::B, Corner(CornerRot::YFacing, CornerNotation::A)));
    assert_eq!(cs[7], (CornerNotation::H, Corner(CornerRot::YFacing, CornerNotation::H)));
    let es = cube.edge_pieces();
    assert_eq!(es.len(), 12);
    assert_eq!(es[0], (EdgeNotation::I, Edge(EdgeRot::Correct, EdgeNotation::J)));
    assert_eq!(es[1], (EdgeNotation::J, Edge(EdgeRot::Correct, EdgeNotation::I)));
    assert_eq!(es[11], (EdgeNotation::T, Edge(EdgeRot::Correct, EdgeNotation::T)));
}

#[test]
fn edge_swap_left_equals_reversed_swap_right() {
    let mut a = Cube::new();
    let mut b = Cube::new();
    assert_eq!(a.edge_swap_left(e(EdgeNotation::I), e(EdgeNotation::J), e(EdgeNotation::K)), Ok(()));
    assert_eq!(b.edge_swap_right(e(EdgeNotation::K), e(EdgeNotation::J), e(EdgeNotation::I)), Ok(()));
    assert_eq!(a, b);
    assert_ne!(a, Cube::new());
}

#[test]
fn edge_swap_right_cycles_three_slots() {
    let mut a = Cube::new();
    assert_eq!(a.edge_swap_right(e(EdgeNotation::I), e(EdgeNotation::J), e(EdgeNotation::K)), Ok(()));
    // The piece of the first slot goes to the second, the second to the third.
    assert_eq!(a.edges[0], Edge(EdgeRot::Correct, EdgeNotation::K));
    assert_eq!(a.edges[1], Edge(EdgeRot::Correct, EdgeNotation::I));
    assert_eq!(a.edges[2], Edge(EdgeRot::Correct, EdgeNotation::J));
    for i in 3..12 {
        assert_eq!(a.edges[i], Cube::new().edges[i]);
    }
    assert_eq!(a.corners, Cube::new().corners);
}

#[test]
fn corner_swap_left_cycles_three_slots_the_other_way() {
    let mut a = Cube::new();
    assert_eq!(
        a.corner_swap_left(c(CornerNotation::B), c(CornerNotation::E), c(CornerNotation::H)),
        Ok(())
    );
    assert_eq!(a.corners[1], Corner(CornerRot::YFacing, CornerNotation::E));
    assert_eq!(a.corners[4], Corner(CornerRot::YFacing, CornerNotation::H));
    assert_eq!(a.corners[7], Corner(CornerRot::YFacing, CornerNotation::B));
    assert_eq!(a.edges, Cube::new().edges);
}

#[test]
fn swap_twists_before_it_cycles() {
    let mut a = Cube::new();
    assert_eq!(
        a.corner_swap_right(
            Comutation(CornerNotation::A, Some(RotDirection::Right)),
            Comutation(CornerNotation::B, Some(RotDirection::Left)),
            Comutation(CornerNotation::C, None),
        ),
        Ok(())
    );
    assert_eq!(a.corners[0], Corner(CornerRot::YFacing, CornerNotation::C));
    assert_eq!(a.corners[1], Corner(CornerRot::XFacing, CornerNotation::A));
    assert_eq!(a.corners[2], Corner(CornerRot::ZFacing, CornerNotation::B));
    let mut b = Cube::new();
    assert_eq!(
        b.edge_swap_left(
            Comutation(EdgeNotation::M, Some(RotDirection::Left)),
            Comutation(EdgeNotation::N, None),
            Comutation(EdgeNotation::O, None),
        ),
        Ok(())
    );
    assert_eq!(b.edges[4], Edge(EdgeRot::Correct, EdgeNotation::N));
    assert_eq!(b.edges[5], Edge(EdgeRot::Correct, EdgeNotation::O));
    assert_eq!(b.edges[6], Edge(EdgeRot::Incorrect, EdgeNotation::M));
    assert_eq!(b.corners, Cube::new().corners);
}

#[test]
fn swap_left_undoes_swap_right_for_every_triple() {
    let ev = EdgeNotation::variants();
    let cv = CornerNotation::variants();
    let mut start = Cube::new();
    start.pair_swap(
        Comutation(CornerNotation::C, Some(RotDirection::Right)),
        c(CornerNotation::F),
        Comutation(EdgeNotation::P, Some(RotDirection::Right)),
        e(EdgeNotation::Q),
    );
    for &x in ev.iter() {
        for &y in ev.iter() {
            for &z in ev.iter() {
                if x == y || x == z || y == z {
                    continue;
                }
                let mut cube = start.clone();
                assert_eq!(cube.edge_swap_right(e(x), e(y), e(z)), Ok(()));
                assert_ne!(cube, start);
                assert_eq!(cube.edge_swap_left(e(x), e(y), e(z)), Ok(()));
                assert_eq!(cube, start);
                let r = Some(RotDirection::Right);
                assert_eq!(cube.edge_swap_left(Comutation(x, r), Comutation(y, r), Comutation(z, r)), Ok(()));
                assert_eq!(cube.edge_swap_right(Comutation(x, r), Comutation(y, r), Comutation(z, r)), Ok(()));
                assert_eq!(cube, start);
            }
        }
    }
    for &x in cv.iter() {
        for &y in cv.iter() {
            for &z in cv.iter() {
                if x == y || x == z || y == z {
                    continue;
                }
                let mut cube = start.clone();
                assert_eq!(cube.corner_swap_right(c(x), c(y), c(z)), Ok(()));
                assert_ne!(cube, start);
                assert_eq!(cube.corner_swap_left(c(x), c(y), c(z)), Ok(()));
                assert_eq!(cube, start);
            }
        }
    }
}

#[test]
fn a_twisted_cycle_is_not_undone_by_its_mirror() {
    let mut cube = Cube::new();
    let a = Comutation(EdgeNotation::I, Some(RotDirection::Right));
    assert_eq!(cube.edge_swap_right(a, e(EdgeNotation::J), e(EdgeNotation::K)), Ok(()));
    assert_eq!(cube.edge_swap_left(a, e(EdgeNotation::J), e(EdgeNotation::K)), Ok(()));
    assert_ne!(cube, Cube::new());
}

#[test]
fn cycles_over_repeated_slots_are_refused() {
    let start = {
        let mut s = Cube::new();
        s.pair_swap(c(CornerNotation::A), c(CornerNotation::H), e(EdgeNotation::I), e(EdgeNotation::T));
        s
    };
    let r = Some(RotDirection::Right);
    let mut cube = start.clone();
    assert_eq!(
        cube.edge_swap_right(Comutation(EdgeNotation::I, r), e(EdgeNotation::I), e(EdgeNotation::K)),
        Err(CubeError::InvalidCycle)
    );
    assert_eq!(cube, start);
    assert_eq!(
        cube.edge_swap_left(e(EdgeNotation::I), Comutation(EdgeNotation::J, r), e(EdgeNotation::J)),
        Err(CubeError::InvalidCycle)
    );
    assert_eq!(cube, start);
    assert_eq!(
        cube.corner_swap_right(Comutation(CornerNotation::D, r), e_corner(CornerNotation::E), c(CornerNotation::D)),
        Err(CubeError::InvalidCycle)
    );
    assert_eq!(cube, start);
    assert_eq!(
        cube.corner_swap_left(c(CornerNotation::F), c(CornerNotation::F), Comutation(CornerNotation::F, r)),
        Err(CubeError::InvalidCycle)
    );
    assert_eq!(cube, start);
}

fn e_corner(s: CornerNotation) -> Comutation<CornerNotation> {
    Comutation(s, None)
}

#[test]
fn pair_swap_exchanges_one_pair_in_each_class() {
    let mut cube = Cube::new();
    cube.pair_swap(
        Comutation(CornerNotation::A, Some(RotDirection::Left)),
        c(CornerNotation::D),
        e(EdgeNotation::J),
        Comutation(EdgeNotation::S, Some(RotDirection::Right)),
    );
    assert_eq!(cube.corners[0], Corner(CornerRot::YFacing, CornerNotation::D));
    assert_eq!(cube.corners[3], Corner(CornerRot::ZFacing, CornerNotation::A));
    assert_eq!(cube.edges[1], Edge(EdgeRot::Incorrect, EdgeNotation::S));
    assert_eq!(cube.edges[10], Edge(EdgeRot::Correct, EdgeNotation::J));
}

#[test]
fn pair_swap_over_one_slot_moves_nothing_there() {
    let mut cube = Cube::new();
    cube.pair_swap(c(CornerNotation::B), c(CornerNotation::B), e(EdgeNotation::I), e(EdgeNotation::K));
    assert_eq!(cube.corners, Cube::new().corners);
    assert_eq!(cube.edges[0], Edge(EdgeRot::Correct, EdgeNotation::K));
    assert_eq!(cube.edges[2], Edge(EdgeRot::Correct, EdgeNotation::I));
}

#[test]
fn same_state_is_structural() {
    let a = Cube::new();
    let mut b = Cube::new();
    assert!(a.same_state(&b));
    assert_eq!(a, b);
    b.pair_swap(Comutation(CornerNotation::H, Some(RotDirection::Left)), c(CornerNotation::H), e(EdgeNotation::I), e(EdgeNotation::I));
    assert!(!a.same_state(&b));
    assert_ne!(a, b);
    let mut d = Cube::new();
    d.pair_swap(c(CornerNotation::A), c(CornerNotation::A), Comutation(EdgeNotation::T, Some(RotDirection::Left)), e(EdgeNotation::T));
    assert!(!a.same_state(&d));
    assert!(!d.same_state(&b));
    assert!(d.same_state(&d.clone()));
}
