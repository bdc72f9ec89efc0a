//! The cube's state and the primitives that mutate it.

use vstd::prelude::*;
use crate::piece::{Corner, CornerNotation, CornerRot, Edge, EdgeNotation, EdgeRot, PieceNotation, RotDirection};

verus! {

/// A slot that takes part in a cycle, with an optional twist applied to the
/// piece found there before the cycle runs.
#[derive(Debug, Clone, Copy)]
pub struct Comutation<XN>(pub XN, pub Option<RotDirection>);

pub type CornerComutation = Comutation<CornerNotation>;

pub type EdgeComutation = Comutation<EdgeNotation>;

/// Why a primitive was refused. The move vocabulary is a closed enumeration
/// in which every token has its definition, so a move is never refused.
#[derive(Debug, Copy, Clone, PartialEq, Eq, Structural)]
pub enum CubeError {
    /// A three-cycle named fewer than three distinct slots.
    InvalidCycle,
}

/// The pieces of a cube as sequences indexed by slot.
pub struct CubeView {
    pub corners: Seq<Corner>,
    pub edges: Seq<Edge>,
}

/// The cube: the piece that sits in each corner slot and each edge slot.
#[derive(Debug, Clone, PartialEq, Eq)]
pub struct Cube {
    pub corners: [Corner; 8],
    pub edges: [Edge; 12],
}

impl View for Cube {
    type V = CubeView;

    open spec fn view(&self) -> CubeView {
        CubeView { corners: self.corners@, edges: self.edges@ }
    }
}

/// The sequence with the entries at `i` and `j` exchanged.
pub open spec fn exchanged<T>(s: Seq<T>, i: int, j: int) -> Seq<T> {
    s.update(i, s[j]).update(j, s[i])
}

/// The corners after the twist that a comutation asks for, if it asks for one.
pub open spec fn corners_twisted(s: Seq<Corner>, c: CornerComutation) -> Seq<Corner> {
    match c.1 {
        Some(d) => s.update(c.0.index_spec(), s[c.0.index_spec()].rotated(d)),
        None => s,
    }
}

/// The edges after the twist that a comutation asks for, if it asks for one.
pub open spec fn edges_twisted(s: Seq<Edge>, c: EdgeComutation) -> Seq<Edge> {
    match c.1 {
        Some(d) => s.update(c.0.index_spec(), s[c.0.index_spec()].rotated(d)),
        None => s,
    }
}

/// Three slot indices, no two of them the same.
pub open spec fn distinct3(a: int, b: int, c: int) -> bool {
    a != b && a != c && b != c
}

impl CubeView {
    /// Eight corners and twelve edges.
    pub open spec fn wf(self) -> bool {
        self.corners.len() == 8 && self.edges.len() == 12
    }

    /// Twist at `a`, `b`, `c` in turn, then exchange `a` with `c` and `b` with `c`.
    pub open spec fn corner_swap_right(self, a: CornerComutation, b: CornerComutation, c: CornerComutation) -> CubeView {
        let t = corners_twisted(corners_twisted(corners_twisted(self.corners, a), b), c);
        CubeView {
            corners: exchanged(exchanged(t, a.0.index_spec(), c.0.index_spec()), b.0.index_spec(), c.0.index_spec()),
            edges: self.edges,
        }
    }

    /// Twist at `a`, `b`, `c` in turn, then exchange `a` with `c` and `a` with `b`.
    pub open spec fn corner_swap_left(self, a: CornerComutation, b: CornerComutation, c: CornerComutation) -> CubeView {
        let t = corners_twisted(corners_twisted(corners_twisted(self.corners, a), b), c);
        CubeView {
            corners: exchanged(exchanged(t, a.0.index_spec(), c.0.index_spec()), a.0.index_spec(), b.0.index_spec()),
            edges: self.edges,
        }
    }

    /// Twist at `a`, `b`, `c` in turn, then exchange `a` with `c` and `b` with `c`.
    pub open spec fn edge_swap_right(self, a: EdgeComutation, b: EdgeComutation, c: EdgeComutation) -> CubeView {
        let t = edges_twisted(edges_twisted(edges_twisted(self.edges, a), b), c);
        CubeView {
            corners: self.corners,
            edges: exchanged(exchanged(t, a.0.index_spec(), c.0.index_spec()), b.0.index_spec(), c.0.index_spec()),
        }
    }

    /// Twist at `a`, `b`, `c` in turn, then exchange `a` with `c` and `a` with `b`.
    pub open spec fn edge_swap_left(self, a: EdgeComutation, b: EdgeComutation, c: EdgeComutation) -> CubeView {
        let t = edges_twisted(edges_twisted(edges_twisted(self.edges, a), b), c);
        CubeView {
            corners: self.corners,
            edges: exchanged(exchanged(t, a.0.index_spec(), c.0.index_spec()), a.0.index_spec(), b.0.index_spec()),
        }
    }

    /// Twist the corners at `a`, `b` and the edges at `c`, `d` in turn, then
    /// exchange the two corners and the two edges.
    pub open spec fn pair_swap(self, a: CornerComutation, b: CornerComutation, c: EdgeComutation, d: EdgeComutation) -> CubeView {
        CubeView {
            corners: exchanged(corners_twisted(corners_twisted(self.corners, a), b), a.0.index_spec(), b.0.index_spec()),
            edges: exchanged(edges_twisted(edges_twisted(self.edges, c), d), c.0.index_spec(), d.0.index_spec()),
        }
    }
}

/// The solved cube: every piece in its home slot, corners Y-facing and edges
/// correct.
pub open spec fn solved() -> CubeView {
    CubeView {
        corners: Seq::new(8, |i: int| Corner(CornerRot::YFacing, corner_slot(i))),
        edges: Seq::new(12, |i: int| Edge(EdgeRot::Correct, edge_slot(i))),
    }
}

/// The corner slot with the given index.
pub open spec fn corner_slot(i: int) -> CornerNotation {
    if i == 0 { CornerNotation::A }
    else if i == 1 { CornerNotation::B }
    else if i == 2 { CornerNotation::C }
    else if i == 3 { CornerNotation::D }
    else if i == 4 { CornerNotation::E }
    else if i == 5 { CornerNotation::F }
    else if i == 6 { CornerNotation::G }
    else { CornerNotation::H }
}

/// The edge slot with the given index.
pub open spec fn edge_slot(i: int) -> EdgeNotation {
    if i == 0 { EdgeNotation::I }
    else if i == 1 { EdgeNotation::J }
    else if i == 2 { EdgeNotation::K }
    else if i == 3 { EdgeNotation::L }
    else if i == 4 { EdgeNotation::M }
    else if i == 5 { EdgeNotation::N }
    else if i == 6 { EdgeNotation::O }
    else if i == 7 { EdgeNotation::P }
    else if i == 8 { EdgeNotation::Q }
    else if i == 9 { EdgeNotation::R }
    else if i == 10 { EdgeNotation::S }
    else { EdgeNotation::T }
}

impl Cube {
    /// The solved cube.
    pub fn new() -> (cube: Cube)
        ensures
            cube@ == solved(),
    {
        let cube = Cube {
            corners: [
                Corner(CornerRot::YFacing, CornerNotation::A),
                Corner(CornerRot::YFacing, CornerNotation::B),
                Corner(CornerRot::YFacing, CornerNotation::C),
                Corner(CornerRot::YFacing, CornerNotation::D),
                Corner(CornerRot::YFacing, CornerNotation::E),
                Corner(CornerRot::YFacing, CornerNotation::F),
                Corner(CornerRot::YFacing, CornerNotation::G),
                Corner(CornerRot::YFacing, CornerNotation::H),
            ],
            edges: [
                Edge(EdgeRot::Correct, EdgeNotation::I),
                Edge(EdgeRot::Correct, EdgeNotation::J),
                Edge(EdgeRot::Correct, EdgeNotation::K),
                Edge(EdgeRot::Correct, EdgeNotation::L),
                Edge(EdgeRot::Correct, EdgeNotation::M),
                Edge(EdgeRot::Correct, EdgeNotation::N),
                Edge(EdgeRot::Correct, EdgeNotation::O),
                Edge(EdgeRot::Correct, EdgeNotation::P),
                Edge(EdgeRot::Correct, EdgeNotation::Q),
                Edge(EdgeRot::Correct, EdgeNotation::R),
                Edge(EdgeRot::Correct, EdgeNotation::S),
                Edge(EdgeRot::Correct, EdgeNotation::T),
            ],
        };
        assert(cube.corners@ =~= solved().corners);
        assert(cube.edges@ =~= solved().edges);
        cube
    }

    /// The piece in each corner slot, in slot order.
    pub fn corner_pieces(&self) -> (v: Vec<(CornerNotation, Corner)>)
        ensures
            v@.len() == 8,
            forall|i: int| 0 <= i < 8 ==> (#[trigger] v@[i]) == (corner_slot(i), self@.corners[i]),
    {
        let slots = CornerNotation::variants();
        let mut v: Vec<(CornerNotation, Corner)> = Vec::new();
        let mut i: usize = 0;
        while i < 8
            invariant
                i <= 8,
                v@.len() == i,
                forall|k: int| 0 <= k < 8 ==> (#[trigger] slots@[k]).index_spec() == k,
                forall|k: int| 0 <= k < i ==> (#[trigger] v@[k]) == (corner_slot(k), self@.corners[k]),
            decreases 8 - i,
        {
            assert(slots@[i as int].index_spec() == i);
            v.push((slots[i], self.corners[i]));
            i += 1;
        }
        v
    }

    /// The piece in each edge slot, in slot order.
    pub fn edge_pieces(&self) -> (v: Vec<(EdgeNotation, Edge)>)
        ensures
            v@.len() == 12,
            forall|i: int| 0 <= i < 12 ==> (#[trigger] v@[i]) == (edge_slot(i), self@.edges[i]),
    {
        let slots = EdgeNotation::variants();
        let mut v: Vec<(EdgeNotation, Edge)> = Vec::new();
        let mut i: usize = 0;
        while i < 12
            invariant
                i <= 12,
                v@.len() == i,
                forall|k: int| 0 <= k < 12 ==> (#[trigger] slots@[k]).index_spec() == k,
                forall|k: int| 0 <= k < i ==> (#[trigger] v@[k]) == (edge_slot(k), self@.edges[k]),
            decreases 12 - i,
        {
            assert(slots@[i as int].index_spec() == i);
            v.push((slots[i], self.edges[i]));
            i += 1;
        }
        v
    }

    /// Whether two cubes hold the same piece, in the same orientation, in
    /// every slot.
    pub fn same_state(&self, other: &Cube) -> (same: bool)
        ensures
            same == (self@ == other@),
    {
        let mut i: usize = 0;
        while i < 8
            invariant
                i <= 8,
                forall|k: int| 0 <= k < i ==> self.corners@[k] == other.corners@[k],
            decreases 8 - i,
        {
            if self.corners[i] != other.corners[i] {
                return false;
            }
            i += 1;
        }
        let mut j: usize = 0;
        while j < 12
            invariant
                j <= 12,
                forall|k: int| 0 <= k < j ==> self.edges@[k] == other.edges@[k],
            decreases 12 - j,
        {
            if self.edges[j] != other.edges[j] {
                return false;
            }
            j += 1;
        }
        assert(self.corners@ =~= other.corners@);
        assert(self.edges@ =~= other.edges@);
        true
    }

    /// Exchanges the corners in two slots.
    fn exchange_corners(&mut self, i: usize, j: usize)
        requires
            i < 8,
            j < 8,
        ensures
            final(self).corners@ == exchanged(old(self).corners@, i as int, j as int),
            final(self).edges == old(self).edges,
    {
        let x = self.corners[i];
        let y = self.corners[j];
        self.corners[i] = y;
        self.corners[j] = x;
    }

    /// Exchanges the edges in two slots.
    fn exchange_edges(&mut self, i: usize, j: usize)
        requires
            i < 12,
            j < 12,
        ensures
            final(self).edges@ == exchanged(old(self).edges@, i as int, j as int),
            final(self).corners == old(self).corners,
    {
        let x = self.edges[i];
        let y = self.edges[j];
        self.edges[i] = y;
        self.edges[j] = x;
    }

    /// Applies the twist of a comutation to the corner in its slot.
    fn twist_corner(&mut self, c: CornerComutation)
        ensures
            final(self).corners@ == corners_twisted(old(self).corners@, c),
            final(self).edges == old(self).edges,
    {
        if let Some(d) = c.1 {
            let i = c.0.index();
            let x = self.corners[i].rotate(d);
            self.corners[i] = x;
        }
    }

    /// Applies the twist of a comutation to the edge in its slot.
    fn twist_edge(&mut self, c: EdgeComutation)
        ensures
            final(self).edges@ == edges_twisted(old(self).edges@, c),
            final(self).corners == old(self).corners,
    {
        if let Some(d) = c.1 {
            let i = c.0.index();
            let x = self.edges[i].rotate(d);
            self.edges[i] = x;
        }
    }

    /// Twists the corners at `a`, `b`, `c` as asked, then cycles the three
    /// slots: the corner of `a` goes to `b`, that of `b` to `c`, that of `c`
    /// to `a`. Refused, with the cube untouched, unless the three slots differ.
    pub fn corner_swap_right(&mut self, a: CornerComutation, b: CornerComutation, c: CornerComutation) -> (r: Result<(), CubeError>)
        ensures
            distinct3(a.0.index_spec(), b.0.index_spec(), c.0.index_spec()) ==> r == Ok::<(), CubeError>(())
                && final(self)@ == old(self)@.corner_swap_right(a, b, c),
            !distinct3(a.0.index_spec(), b.0.index_spec(), c.0.index_spec()) ==> r == Err::<(), CubeError>(
                CubeError::InvalidCycle,
            ) && *final(self) == *old(self),
    {
        let (i, j, k) = (a.0.index(), b.0.index(), c.0.index());
        if i == j || i == k || j == k {
            return Err(CubeError::InvalidCycle);
        }
        self.twist_corner(a);
        self.twist_corner(b);
        self.twist_corner(c);
        self.exchange_corners(i, k);
        self.exchange_corners(j, k);
        Ok(())
    }

    /// Twists the corners at `a`, `b`, `c` as asked, then cycles the three
    /// slots the other way: the corner of `a` goes to `c`, that of `c` to
    /// `b`, that of `b` to `a`. Refused, with the cube untouched, unless the
    /// three slots differ.
    pub fn corner_swap_left(&mut self, a: CornerComutation, b: CornerComutation, c: CornerComutation) -> (r: Result<(), CubeError>)
        ensures
            distinct3(a.0.index_spec(), b.0.index_spec(), c.0.index_spec()) ==> r == Ok::<(), CubeError>(())
                && final(self)@ == old(self)@.corner_swap_left(a, b, c),
            !distinct3(a.0.index_spec(), b.0.index_spec(), c.0.index_spec()) ==> r == Err::<(), CubeError>(
                CubeError::InvalidCycle,
            ) && *final(self) == *old(self),
    {
        let (i, j, k) = (a.0.index(), b.0.index(), c.0.index());
        if i == j || i == k || j == k {
            return Err(CubeError::InvalidCycle);
        }
        self.twist_corner(a);
        self.twist_corner(b);
        self.twist_corner(c);
        self.exchange_corners(i, k);
        self.exchange_corners(i, j);
        Ok(())
    }

    /// Twists the edges at `a`, `b`, `c` as asked, then cycles the three
    /// slots: the edge of `a` goes to `b`, that of `b` to `c`, that of `c`
    /// to `a`. Refused, with the cube untouched, unless the three slots differ.
    pub fn edge_swap_right(&mut self, a: EdgeComutation, b: EdgeComutation, c: EdgeComutation) -> (r: Result<(), CubeError>)
        ensures
            distinct3(a.0.index_spec(), b.0.index_spec(), c.0.index_spec()) ==> r == Ok::<(), CubeError>(())
                && final(self)@ == old(self)@.edge_swap_right(a, b, c),
            !distinct3(a.0.index_spec(), b.0.index_spec(), c.0.index_spec()) ==> r == Err::<(), CubeError>(
                CubeError::InvalidCycle,
            ) && *final(self) == *old(self),
    {
        let (i, j, k) = (a.0.index(), b.0.index(), c.0.index());
        if i == j || i == k || j == k {
            return Err(CubeError::InvalidCycle);
        }
        self.twist_edge(a);
        self.twist_edge(b);
        self.twist_edge(c);
        self.exchange_edges(i, k);
        self.exchange_edges(j, k);
        Ok(())
    }

    /// Twists the edges at `a`, `b`, `c` as asked, then cycles the three
    /// slots the other way: the edge of `a` goes to `c`, that of `c` to `b`,
    /// that of `b` to `a`. Refused, with the cube untouched, unless the three
    /// slots differ.
    pub fn edge_swap_left(&mut self, a: EdgeComutation, b: EdgeComutation, c: EdgeComutation) -> (r: Result<(), CubeError>)
        ensures
            distinct3(a.0.index_spec(), b.0.index_spec(), c.0.index_spec()) ==> r == Ok::<(), CubeError>(())
                && final(self)@ == old(self)@.edge_swap_left(a, b, c),
            !distinct3(a.0.index_spec(), b.0.index_spec(), c.0.index_spec()) ==> r == Err::<(), CubeError>(
                CubeError::InvalidCycle,
            ) && *final(self) == *old(self),
    {
        let (i, j, k) = (a.0.index(), b.0.index(), c.0.index());
        if i == j || i == k || j == k {
            return Err(CubeError::InvalidCycle);
        }
        self.twist_edge(a);
        self.twist_edge(b);
        self.twist_edge(c);
        self.exchange_edges(i, k);
        self.exchange_edges(i, j);
        Ok(())
    }

    /// Twists the corners at `a`, `b` and the edges at `c`, `d` as asked,
    /// then exchanges the two corners and the two edges. Where both slots of
    /// a class are the same slot, the exchange in that class moves nothing.
    pub fn pair_swap(&mut self, a: CornerComutation, b: CornerComutation, c: EdgeComutation, d: EdgeComutation)
        ensures
            final(self)@ == old(self)@.pair_swap(a, b, c, d),
    {
        self.twist_corner(a);
        self.twist_corner(b);
        self.twist_edge(c);
        self.twist_edge(d);
        self.exchange_corners(a.0.index(), b.0.index());
        self.exchange_edges(c.0.index(), d.0.index());
    }
}

/// A left corner cycle undoes the right corner cycle over the same three
/// distinct slots, from any state, when no twist is asked for.
pub proof fn lemma_corner_swap_left_undoes_right(s: CubeView, a: CornerComutation, b: CornerComutation, c: CornerComutation)
    requires
        s.wf(),
        distinct3(a.0.index_spec(), b.0.index_spec(), c.0.index_spec()),
        a.1 is None && b.1 is None && c.1 is None,
    ensures
        s.corner_swap_right(a, b, c).corner_swap_left(a, b, c) == s,
        s.corner_swap_left(a, b, c).corner_swap_right(a, b, c) == s,
{
    assert(s.corner_swap_right(a, b, c).corner_swap_left(a, b, c).corners =~= s.corners);
    assert(s.corner_swap_left(a, b, c).corner_swap_right(a, b, c).corners =~= s.corners);
}

/// A left edge cycle undoes the right edge cycle over the same three
/// distinct slots, from any state, when the three comutations ask for a
/// twist all alike: all of them or none.
pub proof fn lemma_edge_swap_left_undoes_right(s: CubeView, a: EdgeComutation, b: EdgeComutation, c: EdgeComutation)
    requires
        s.wf(),
        distinct3(a.0.index_spec(), b.0.index_spec(), c.0.index_spec()),
        (a.1 is Some) == (b.1 is Some),
        (b.1 is Some) == (c.1 is Some),
    ensures
        s.edge_swap_right(a, b, c).edge_swap_left(a, b, c) == s,
        s.edge_swap_left(a, b, c).edge_swap_right(a, b, c) == s,
{
    assert(s.edge_swap_right(a, b, c).edge_swap_left(a, b, c).edges =~= s.edges);
    assert(s.edge_swap_left(a, b, c).edge_swap_right(a, b, c).edges =~= s.edges);
}

/// From any state, a left cycle over `a`, `b`, `c` is the right cycle over
/// `c`, `b`, `a`, when no twist is asked for.
pub proof fn lemma_swap_left_is_reversed_right(s: CubeView, a: EdgeComutation, b: EdgeComutation, c: EdgeComutation, x: CornerComutation, y: CornerComutation, z: CornerComutation)
    requires
        s.wf(),
        a.1 is None && b.1 is None && c.1 is None,
        x.1 is None && y.1 is None && z.1 is None,
    ensures
        s.edge_swap_left(a, b, c) == s.edge_swap_right(c, b, a),
        s.corner_swap_left(x, y, z) == s.corner_swap_right(z, y, x),
{
    assert(s.edge_swap_left(a, b, c).edges =~= s.edge_swap_right(c, b, a).edges);
    assert(s.corner_swap_left(x, y, z).corners =~= s.corner_swap_right(z, y, x).corners);
}

} // verus!
