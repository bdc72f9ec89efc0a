//! The invariants that mark the states a physical cube can reach, and the
//! algebraic laws of the moves.

use vstd::prelude::*;
use crate::cube::{solved, CubeView};
use crate::laws::lemma_quarter_round_trip;
use crate::moves::{cycle_has, cycle_source, cycle_target, MoveNotation, Turn};
use crate::piece::{Corner, Edge, PieceNotation, RotDirection};

verus! {

/// 1 where `a` is above `b`, else 0: what one pair of entries adds to the
/// count of inversions.
#[verifier::opaque]
pub open spec fn above(a: int, b: int) -> int {
    if a > b { 1 } else { 0 }
}

/// The home slot of the corner in each slot, by index.
pub open spec fn corner_homes(s: Seq<Corner>) -> Seq<int> {
    Seq::new(8, |i: int| s[i].1.index_spec())
}

/// The home slot of the edge in each slot, by index.
pub open spec fn edge_homes(s: Seq<Edge>) -> Seq<int> {
    Seq::new(12, |i: int| s[i].1.index_spec())
}

/// The number of inversions among eight entries: the pairs of positions
/// whose entries stand in falling order.
#[verifier::opaque]
pub open spec fn inversions8(h: Seq<int>) -> int {
    above(h[0], h[1])
        + above(h[0], h[2]) + above(h[1], h[2])
        + above(h[0], h[3]) + above(h[1], h[3]) + above(h[2], h[3])
        + above(h[0], h[4]) + above(h[1], h[4]) + above(h[2], h[4]) + above(h[3], h[4])
        + above(h[0], h[5]) + above(h[1], h[5]) + above(h[2], h[5]) + above(h[3], h[5]) + above(h[4], h[5])
        + above(h[0], h[6]) + above(h[1], h[6]) + above(h[2], h[6]) + above(h[3], h[6]) + above(h[4], h[6]) + above(h[5], h[6])
        + above(h[0], h[7]) + above(h[1], h[7]) + above(h[2], h[7]) + above(h[3], h[7]) + above(h[4], h[7]) + above(h[5], h[7]) + above(h[6], h[7])
}

/// The number of inversions among twelve entries.
#[verifier::opaque]
pub open spec fn inversions12(h: Seq<int>) -> int {
    above(h[0], h[1])
        + above(h[0], h[2]) + above(h[1], h[2])
        + above(h[0], h[3]) + above(h[1], h[3]) + above(h[2], h[3])
        + above(h[0], h[4]) + above(h[1], h[4]) + above(h[2], h[4]) + above(h[3], h[4])
        + above(h[0], h[5]) + above(h[1], h[5]) + above(h[2], h[5]) + above(h[3], h[5]) + above(h[4], h[5])
        + above(h[0], h[6]) + above(h[1], h[6]) + above(h[2], h[6]) + above(h[3], h[6]) + above(h[4], h[6]) + above(h[5], h[6])
        + above(h[0], h[7]) + above(h[1], h[7]) + above(h[2], h[7]) + above(h[3], h[7]) + above(h[4], h[7]) + above(h[5], h[7]) + above(h[6], h[7])
        + above(h[0], h[8]) + above(h[1], h[8]) + above(h[2], h[8]) + above(h[3], h[8]) + above(h[4], h[8]) + above(h[5], h[8]) + above(h[6], h[8]) + above(h[7], h[8])
        + above(h[0], h[9]) + above(h[1], h[9]) + above(h[2], h[9]) + above(h[3], h[9]) + above(h[4], h[9]) + above(h[5], h[9]) + above(h[6], h[9]) + above(h[7], h[9]) + above(h[8], h[9])
        + above(h[0], h[10]) + above(h[1], h[10]) + above(h[2], h[10]) + above(h[3], h[10]) + above(h[4], h[10]) + above(h[5], h[10]) + above(h[6], h[10]) + above(h[7], h[10]) + above(h[8], h[10]) + above(h[9], h[10])
        + above(h[0], h[11]) + above(h[1], h[11]) + above(h[2], h[11]) + above(h[3], h[11]) + above(h[4], h[11]) + above(h[5], h[11]) + above(h[6], h[11]) + above(h[7], h[11]) + above(h[8], h[11]) + above(h[9], h[11]) + above(h[10], h[11])
}

/// No two positions below `n` hold the same entry.
pub open spec fn all_differ(h: Seq<int>, n: int) -> bool {
    forall|i: int, j: int| 0 <= i < n && 0 <= j < n && i != j ==> h[i] != h[j]
}

/// The sum of the corner orientations, each counted as its number of right
/// twists.
#[verifier::opaque]
pub open spec fn corner_twist_sum(s: Seq<Corner>) -> int {
    s[0].0.value() + s[1].0.value() + s[2].0.value() + s[3].0.value() + s[4].0.value() + s[5].0.value()
        + s[6].0.value() + s[7].0.value()
}

/// The number of flipped edges.
#[verifier::opaque]
pub open spec fn edge_flip_sum(s: Seq<Edge>) -> int {
    s[0].0.value() + s[1].0.value() + s[2].0.value() + s[3].0.value() + s[4].0.value() + s[5].0.value()
        + s[6].0.value() + s[7].0.value() + s[8].0.value() + s[9].0.value() + s[10].0.value() + s[11].0.value()
}

impl CubeView {
    /// Every corner and every edge is on the cube exactly once.
    #[verifier::opaque]
    pub open spec fn is_arrangement(self) -> bool {
        self.wf() && all_differ(corner_homes(self.corners), 8) && all_differ(edge_homes(self.edges), 12)
    }

    /// Whether the permutation of the corners is odd.
    pub open spec fn corners_odd(self) -> bool {
        inversions8(corner_homes(self.corners)) % 2 == 1
    }

    /// Whether the permutation of the edges is odd.
    pub open spec fn edges_odd(self) -> bool {
        inversions12(edge_homes(self.edges)) % 2 == 1
    }

    /// The corner twists cancel: their sum is a multiple of three.
    pub open spec fn twists_cancel(self) -> bool {
        corner_twist_sum(self.corners) % 3 == 0
    }

    /// The edge flips cancel: their number is even.
    pub open spec fn flips_cancel(self) -> bool {
        edge_flip_sum(self.edges) % 2 == 0
    }

    /// Membership in the group of the cube: the pieces are a permutation,
    /// corners and edges are permuted with the same parity, and the
    /// orientations cancel in each class.
    pub open spec fn is_legal(self) -> bool {
        self.is_arrangement() && self.corners_odd() == self.edges_odd() && self.twists_cancel() && self.flips_cancel()
    }
}

/// Of two different entries exactly one is above the other.
proof fn lemma_above_pairs(h: Seq<int>, n: int)
    requires
        all_differ(h, n),
    ensures
        forall|i: int, j: int| 0 <= i < n && 0 <= j < n && i != j ==> #[trigger] above(h[i], h[j]) + above(h[j], h[i]) == 1,
{
    reveal(above);
}

/// A clockwise quarter turn of a layer, from any arrangement of the pieces:
/// the result is an arrangement again; the corner permutation changes parity
/// exactly when the layer is a face; the edge permutation always changes
/// parity; the sum of the corner twists keeps its remainder by three and the
/// number of flipped edges its remainder by two.
pub proof fn lemma_quarter_invariants(c: CubeView, t: Turn)
    requires
        c.is_arrangement(),
    ensures
        c.quarter(t).is_arrangement(),
        c.quarter(t).corners_odd() == (c.corners_odd() != (t.corner_cycle() is Some)),
        c.quarter(t).edges_odd() != c.edges_odd(),
        corner_twist_sum(c.quarter(t).corners) % 3 == corner_twist_sum(c.corners) % 3,
        edge_flip_sum(c.quarter(t).edges) % 2 == edge_flip_sum(c.edges) % 2,
{
    reveal(CubeView::is_arrangement);
    lemma_quarter_arrangement(c, t);
    lemma_quarter_corner_parity(c, t);
    lemma_quarter_edge_parity(c, t);
    lemma_quarter_orientations(c, t);
}

/// A quarter turn either way keeps every piece on the cube exactly once.
proof fn lemma_quarter_arrangement(c: CubeView, t: Turn)
    requires
        c.is_arrangement(),
    ensures
        c.quarter(t).is_arrangement(),
        c.quarter_back(t).is_arrangement(),
{
    reveal(CubeView::is_arrangement);
    let h = corner_homes(c.corners);
    let g = corner_homes(c.quarter(t).corners);
    let gb = corner_homes(c.quarter_back(t).corners);
    assert forall|i: int| 0 <= i < 8 implies g[i] == h[t.corner_source(i)] && gb[i] == h[t.corner_target(i)] by {}
    assert(all_differ(g, 8));
    assert(all_differ(gb, 8));
    let e = edge_homes(c.edges);
    let f = edge_homes(c.quarter(t).edges);
    let fb = edge_homes(c.quarter_back(t).edges);
    assert forall|i: int| 0 <= i < 12 implies f[i] == e[cycle_source(t.edge_cycle(), i)] && fb[i] == e[cycle_target(
        t.edge_cycle(),
        i,
    )] by {}
    assert(all_differ(f, 12));
    assert(all_differ(fb, 12));
}

/// A quarter turn of a face changes the parity of the corner permutation;
/// a quarter turn of an inner layer moves no corner.
proof fn lemma_quarter_corner_parity(c: CubeView, t: Turn)
    requires
        c.is_arrangement(),
    ensures
        c.quarter(t).corners_odd() == (c.corners_odd() != (t.corner_cycle() is Some)),
{
    reveal(CubeView::is_arrangement);
    let h = corner_homes(c.corners);
    let g = corner_homes(c.quarter(t).corners);
    lemma_above_pairs(h, 8);
    assert forall|i: int| 0 <= i < 8 implies g[i] == h[t.corner_source(i)] by {}
    if t.corner_cycle() is Some {
        lemma_face_changes_parity(h, g, t);
    } else {
        assert(g =~= h);
    }
}

/// Eight different entries carried round by the corner cycle of a face
/// change the parity of their number of inversions.
#[verifier::rlimit(100)]
#[verifier::spinoff_prover]
proof fn lemma_face_changes_parity(h: Seq<int>, g: Seq<int>, t: Turn)
    requires
        h.len() == 8,
        g.len() == 8,
        t.corner_cycle() is Some,
        forall|i: int, j: int| 0 <= i < 8 && 0 <= j < 8 && i != j ==> #[trigger] above(h[i], h[j]) + above(h[j], h[i]) == 1,
        forall|i: int| 0 <= i < 8 ==> #[trigger] g[i] == h[t.corner_source(i)],
    ensures
        inversions8(g) % 2 != inversions8(h) % 2,
{
    reveal(inversions8);
    assert(g[0] == h[t.corner_source(0)]);
    assert(g[1] == h[t.corner_source(1)]);
    assert(g[2] == h[t.corner_source(2)]);
    assert(g[3] == h[t.corner_source(3)]);
    assert(g[4] == h[t.corner_source(4)]);
    assert(g[5] == h[t.corner_source(5)]);
    assert(g[6] == h[t.corner_source(6)]);
    assert(g[7] == h[t.corner_source(7)]);
    match t {
        Turn::R => { assert(inversions8(g) % 2 != inversions8(h) % 2); },
        Turn::U => { assert(inversions8(g) % 2 != inversions8(h) % 2); },
        Turn::L => { assert(inversions8(g) % 2 != inversions8(h) % 2); },
        Turn::D => { assert(inversions8(g) % 2 != inversions8(h) % 2); },
        Turn::F => { assert(inversions8(g) % 2 != inversions8(h) % 2); },
        Turn::B => { assert(inversions8(g) % 2 != inversions8(h) % 2); },
        _ => {},
    }
}

/// A quarter turn of any layer changes the parity of the edge permutation.
proof fn lemma_quarter_edge_parity(c: CubeView, t: Turn)
    requires
        c.is_arrangement(),
    ensures
        c.quarter(t).edges_odd() != c.edges_odd(),
{
    reveal(CubeView::is_arrangement);
    let h = edge_homes(c.edges);
    let g = edge_homes(c.quarter(t).edges);
    lemma_above_pairs(h, 12);
    assert forall|i: int| 0 <= i < 12 implies g[i] == h[cycle_source(t.edge_cycle(), i)] by {}
    lemma_cycle_changes_parity(h, g, t);
}

/// Twelve different entries carried round by the edge cycle of a layer
/// change the parity of their number of inversions.
#[verifier::rlimit(100)]
#[verifier::spinoff_prover]
proof fn lemma_cycle_changes_parity(h: Seq<int>, g: Seq<int>, t: Turn)
    requires
        h.len() == 12,
        g.len() == 12,
        forall|i: int, j: int| 0 <= i < 12 && 0 <= j < 12 && i != j ==> #[trigger] above(h[i], h[j]) + above(h[j], h[i]) == 1,
        forall|i: int| 0 <= i < 12 ==> #[trigger] g[i] == h[cycle_source(t.edge_cycle(), i)],
    ensures
        inversions12(g) % 2 != inversions12(h) % 2,
{
    reveal(inversions12);
    assert(g[0] == h[cycle_source(t.edge_cycle(), 0)]);
    assert(g[1] == h[cycle_source(t.edge_cycle(), 1)]);
    assert(g[2] == h[cycle_source(t.edge_cycle(), 2)]);
    assert(g[3] == h[cycle_source(t.edge_cycle(), 3)]);
    assert(g[4] == h[cycle_source(t.edge_cycle(), 4)]);
    assert(g[5] == h[cycle_source(t.edge_cycle(), 5)]);
    assert(g[6] == h[cycle_source(t.edge_cycle(), 6)]);
    assert(g[7] == h[cycle_source(t.edge_cycle(), 7)]);
    assert(g[8] == h[cycle_source(t.edge_cycle(), 8)]);
    assert(g[9] == h[cycle_source(t.edge_cycle(), 9)]);
    assert(g[10] == h[cycle_source(t.edge_cycle(), 10)]);
    assert(g[11] == h[cycle_source(t.edge_cycle(), 11)]);
    match t {
        Turn::R => { assert(inversions12(g) % 2 != inversions12(h) % 2); },
        Turn::U => { assert(inversions12(g) % 2 != inversions12(h) % 2); },
        Turn::L => { assert(inversions12(g) % 2 != inversions12(h) % 2); },
        Turn::D => { assert(inversions12(g) % 2 != inversions12(h) % 2); },
        Turn::F => { assert(inversions12(g) % 2 != inversions12(h) % 2); },
        Turn::B => { assert(inversions12(g) % 2 != inversions12(h) % 2); },
        Turn::M => { assert(inversions12(g) % 2 != inversions12(h) % 2); },
        Turn::E => { assert(inversions12(g) % 2 != inversions12(h) % 2); },
        Turn::S => { assert(inversions12(g) % 2 != inversions12(h) % 2); },
    }
}

/// What a twist adds to the number of right twists of a corner.
pub open spec fn twist_amount(r: Option<RotDirection>) -> int {
    match r {
        Some(RotDirection::Right) => 1,
        Some(RotDirection::Left) => 2,
        None => 0,
    }
}

/// A quarter turn keeps the twist sum modulo three and the flip count
/// modulo two.
proof fn lemma_quarter_orientations(c: CubeView, t: Turn)
    requires
        c.wf(),
    ensures
        corner_twist_sum(c.quarter(t).corners) % 3 == corner_twist_sum(c.corners) % 3,
        edge_flip_sum(c.quarter(t).edges) % 2 == edge_flip_sum(c.edges) % 2,
{
    reveal(corner_twist_sum);
    reveal(edge_flip_sum);
    let a = Seq::new(8, |i: int| c.corners[i].0.value());
    let b = Seq::new(8, |i: int| c.quarter(t).corners[i].0.value());
    assert forall|i: int| 0 <= i < 8 implies (#[trigger] b[i] - a[t.corner_source(i)] - twist_amount(t.corner_twist(i))) % 3
        == 0 by {}
    lemma_twists_balance(a, b, t);
    let e = Seq::new(12, |i: int| c.edges[i].0.value());
    let f = Seq::new(12, |i: int| c.quarter(t).edges[i].0.value());
    assert forall|i: int| 0 <= i < 12 implies (#[trigger] f[i] - e[cycle_source(t.edge_cycle(), i)] - flip_amount(t, i)) % 2
        == 0 by {}
    lemma_flips_balance(e, f, t);
}

/// 1 where a quarter turn of the layer flips the edge that arrives in slot
/// `i`, else 0.
pub open spec fn flip_amount(t: Turn, i: int) -> int {
    if t.flips_edges() && cycle_has(t.edge_cycle(), i) { 1 } else { 0 }
}

/// The twists that a quarter turn gives add up to a multiple of three.
#[verifier::rlimit(100)]
#[verifier::spinoff_prover]
proof fn lemma_twists_balance(a: Seq<int>, b: Seq<int>, t: Turn)
    requires
        a.len() == 8,
        b.len() == 8,
        forall|i: int| 0 <= i < 8 ==> (#[trigger] b[i] - a[t.corner_source(i)] - twist_amount(t.corner_twist(i))) % 3 == 0,
    ensures
        (b[0] + b[1] + b[2] + b[3] + b[4] + b[5] + b[6] + b[7]) % 3 == (a[0] + a[1] + a[2] + a[3] + a[4] + a[5] + a[6] + a[7]) % 3,
{
    assert((b[0] - a[t.corner_source(0)] - twist_amount(t.corner_twist(0))) % 3 == 0);
    assert((b[1] - a[t.corner_source(1)] - twist_amount(t.corner_twist(1))) % 3 == 0);
    assert((b[2] - a[t.corner_source(2)] - twist_amount(t.corner_twist(2))) % 3 == 0);
    assert((b[3] - a[t.corner_source(3)] - twist_amount(t.corner_twist(3))) % 3 == 0);
    assert((b[4] - a[t.corner_source(4)] - twist_amount(t.corner_twist(4))) % 3 == 0);
    assert((b[5] - a[t.corner_source(5)] - twist_amount(t.corner_twist(5))) % 3 == 0);
    assert((b[6] - a[t.corner_source(6)] - twist_amount(t.corner_twist(6))) % 3 == 0);
    assert((b[7] - a[t.corner_source(7)] - twist_amount(t.corner_twist(7))) % 3 == 0);
    match t {
        Turn::R => { assert((b[0] + b[1] + b[2] + b[3] + b[4] + b[5] + b[6] + b[7]) % 3 == (a[0] + a[1] + a[2] + a[3] + a[4] + a[5] + a[6] + a[7]) % 3); },
        Turn::U => { assert((b[0] + b[1] + b[2] + b[3] + b[4] + b[5] + b[6] + b[7]) % 3 == (a[0] + a[1] + a[2] + a[3] + a[4] + a[5] + a[6] + a[7]) % 3); },
        Turn::L => { assert((b[0] + b[1] + b[2] + b[3] + b[4] + b[5] + b[6] + b[7]) % 3 == (a[0] + a[1] + a[2] + a[3] + a[4] + a[5] + a[6] + a[7]) % 3); },
        Turn::D => { assert((b[0] + b[1] + b[2] + b[3] + b[4] + b[5] + b[6] + b[7]) % 3 == (a[0] + a[1] + a[2] + a[3] + a[4] + a[5] + a[6] + a[7]) % 3); },
        Turn::F => { assert((b[0] + b[1] + b[2] + b[3] + b[4] + b[5] + b[6] + b[7]) % 3 == (a[0] + a[1] + a[2] + a[3] + a[4] + a[5] + a[6] + a[7]) % 3); },
        Turn::B => { assert((b[0] + b[1] + b[2] + b[3] + b[4] + b[5] + b[6] + b[7]) % 3 == (a[0] + a[1] + a[2] + a[3] + a[4] + a[5] + a[6] + a[7]) % 3); },
        Turn::M => { assert((b[0] + b[1] + b[2] + b[3] + b[4] + b[5] + b[6] + b[7]) % 3 == (a[0] + a[1] + a[2] + a[3] + a[4] + a[5] + a[6] + a[7]) % 3); },
        Turn::E => { assert((b[0] + b[1] + b[2] + b[3] + b[4] + b[5] + b[6] + b[7]) % 3 == (a[0] + a[1] + a[2] + a[3] + a[4] + a[5] + a[6] + a[7]) % 3); },
        Turn::S => { assert((b[0] + b[1] + b[2] + b[3] + b[4] + b[5] + b[6] + b[7]) % 3 == (a[0] + a[1] + a[2] + a[3] + a[4] + a[5] + a[6] + a[7]) % 3); },
    }
}

/// A quarter turn flips an even number of edges.
#[verifier::rlimit(100)]
#[verifier::spinoff_prover]
proof fn lemma_flips_balance(e: Seq<int>, f: Seq<int>, t: Turn)
    requires
        e.len() == 12,
        f.len() == 12,
        forall|i: int| 0 <= i < 12 ==> (#[trigger] f[i] - e[cycle_source(t.edge_cycle(), i)] - flip_amount(t, i)) % 2 == 0,
    ensures
        (f[0] + f[1] + f[2] + f[3] + f[4] + f[5] + f[6] + f[7] + f[8] + f[9] + f[10] + f[11]) % 2 == (e[0] + e[1] + e[2] + e[3] + e[4] + e[5] + e[6] + e[7] + e[8] + e[9] + e[10] + e[11]) % 2,
{
    assert((f[0] - e[cycle_source(t.edge_cycle(), 0)] - flip_amount(t, 0)) % 2 == 0);
    assert((f[1] - e[cycle_source(t.edge_cycle(), 1)] - flip_amount(t, 1)) % 2 == 0);
    assert((f[2] - e[cycle_source(t.edge_cycle(), 2)] - flip_amount(t, 2)) % 2 == 0);
    assert((f[3] - e[cycle_source(t.edge_cycle(), 3)] - flip_amount(t, 3)) % 2 == 0);
    assert((f[4] - e[cycle_source(t.edge_cycle(), 4)] - flip_amount(t, 4)) % 2 == 0);
    assert((f[5] - e[cycle_source(t.edge_cycle(), 5)] - flip_amount(t, 5)) % 2 == 0);
    assert((f[6] - e[cycle_source(t.edge_cycle(), 6)] - flip_amount(t, 6)) % 2 == 0);
    assert((f[7] - e[cycle_source(t.edge_cycle(), 7)] - flip_amount(t, 7)) % 2 == 0);
    assert((f[8] - e[cycle_source(t.edge_cycle(), 8)] - flip_amount(t, 8)) % 2 == 0);
    assert((f[9] - e[cycle_source(t.edge_cycle(), 9)] - flip_amount(t, 9)) % 2 == 0);
    assert((f[10] - e[cycle_source(t.edge_cycle(), 10)] - flip_amount(t, 10)) % 2 == 0);
    assert((f[11] - e[cycle_source(t.edge_cycle(), 11)] - flip_amount(t, 11)) % 2 == 0);
    match t {
        Turn::R => { assert((f[0] + f[1] + f[2] + f[3] + f[4] + f[5] + f[6] + f[7] + f[8] + f[9] + f[10] + f[11]) % 2 == (e[0] + e[1] + e[2] + e[3] + e[4] + e[5] + e[6] + e[7] + e[8] + e[9] + e[10] + e[11]) % 2); },
        Turn::U => { assert((f[0] + f[1] + f[2] + f[3] + f[4] + f[5] + f[6] + f[7] + f[8] + f[9] + f[10] + f[11]) % 2 == (e[0] + e[1] + e[2] + e[3] + e[4] + e[5] + e[6] + e[7] + e[8] + e[9] + e[10] + e[11]) % 2); },
        Turn::L => { assert((f[0] + f[1] + f[2] + f[3] + f[4] + f[5] + f[6] + f[7] + f[8] + f[9] + f[10] + f[11]) % 2 == (e[0] + e[1] + e[2] + e[3] + e[4] + e[5] + e[6] + e[7] + e[8] + e[9] + e[10] + e[11]) % 2); },
        Turn::D => { assert((f[0] + f[1] + f[2] + f[3] + f[4] + f[5] + f[6] + f[7] + f[8] + f[9] + f[10] + f[11]) % 2 == (e[0] + e[1] + e[2] + e[3] + e[4] + e[5] + e[6] + e[7] + e[8] + e[9] + e[10] + e[11]) % 2); },
        Turn::F => { assert((f[0] + f[1] + f[2] + f[3] + f[4] + f[5] + f[6] + f[7] + f[8] + f[9] + f[10] + f[11]) % 2 == (e[0] + e[1] + e[2] + e[3] + e[4] + e[5] + e[6] + e[7] + e[8] + e[9] + e[10] + e[11]) % 2); },
        Turn::B => { assert((f[0] + f[1] + f[2] + f[3] + f[4] + f[5] + f[6] + f[7] + f[8] + f[9] + f[10] + f[11]) % 2 == (e[0] + e[1] + e[2] + e[3] + e[4] + e[5] + e[6] + e[7] + e[8] + e[9] + e[10] + e[11]) % 2); },
        Turn::M => { assert((f[0] + f[1] + f[2] + f[3] + f[4] + f[5] + f[6] + f[7] + f[8] + f[9] + f[10] + f[11]) % 2 == (e[0] + e[1] + e[2] + e[3] + e[4] + e[5] + e[6] + e[7] + e[8] + e[9] + e[10] + e[11]) % 2); },
        Turn::E => { assert((f[0] + f[1] + f[2] + f[3] + f[4] + f[5] + f[6] + f[7] + f[8] + f[9] + f[10] + f[11]) % 2 == (e[0] + e[1] + e[2] + e[3] + e[4] + e[5] + e[6] + e[7] + e[8] + e[9] + e[10] + e[11]) % 2); },
        Turn::S => { assert((f[0] + f[1] + f[2] + f[3] + f[4] + f[5] + f[6] + f[7] + f[8] + f[9] + f[10] + f[11]) % 2 == (e[0] + e[1] + e[2] + e[3] + e[4] + e[5] + e[6] + e[7] + e[8] + e[9] + e[10] + e[11]) % 2); },
    }
}

/// A counter-clockwise quarter turn of a layer, from any arrangement of the
/// pieces: what holds of the clockwise one holds of it too.
pub proof fn lemma_quarter_back_invariants(c: CubeView, t: Turn)
    requires
        c.is_arrangement(),
    ensures
        c.quarter_back(t).is_arrangement(),
        c.quarter_back(t).corners_odd() == (c.corners_odd() != (t.corner_cycle() is Some)),
        c.quarter_back(t).edges_odd() != c.edges_odd(),
        corner_twist_sum(c.quarter_back(t).corners) % 3 == corner_twist_sum(c.corners) % 3,
        edge_flip_sum(c.quarter_back(t).edges) % 2 == edge_flip_sum(c.edges) % 2,
{
    reveal(CubeView::is_arrangement);
    lemma_quarter_arrangement(c, t);
    lemma_quarter_round_trip(c, t);
    lemma_quarter_invariants(c.quarter_back(t), t);
}

/// The number of quarter turns of inner layers that a move is made of. Such
/// a turn carries the centres round with it, which this model does not hold.
pub open spec fn inner_quarters(m: MoveNotation) -> int {
    match m {
        MoveNotation::r | MoveNotation::rp | MoveNotation::u | MoveNotation::up | MoveNotation::l |
        MoveNotation::lp | MoveNotation::d | MoveNotation::dp | MoveNotation::f | MoveNotation::fp |
        MoveNotation::b | MoveNotation::bp | MoveNotation::M | MoveNotation::Mp | MoveNotation::E |
        MoveNotation::Ep | MoveNotation::S | MoveNotation::Sp | MoveNotation::x | MoveNotation::xp |
        MoveNotation::y | MoveNotation::yp | MoveNotation::z | MoveNotation::zp => 1,
        MoveNotation::r2 | MoveNotation::u2 | MoveNotation::l2 | MoveNotation::d2 | MoveNotation::f2 |
        MoveNotation::b2 | MoveNotation::M2 | MoveNotation::E2 | MoveNotation::S2 | MoveNotation::x2 |
        MoveNotation::y2 | MoveNotation::z2 => 2,
        _ => 0,
    }
}

/// The number of quarter turns of inner layers in a sequence of moves.
pub open spec fn inner_quarters_all(ms: Seq<MoveNotation>) -> int
    decreases ms.len(),
{
    if ms.len() == 0 {
        0
    } else {
        inner_quarters_all(ms.drop_last()) + inner_quarters(ms.last())
    }
}

/// One move, from any arrangement of the pieces: the result is an
/// arrangement; the corner twists cancel after it exactly if they did before,
/// and so the edge flips; and the parities of the two permutations agree
/// after it as before exactly if the move turns inner layers an even number
/// of quarters.
pub proof fn lemma_move_invariants(c: CubeView, m: MoveNotation)
    requires
        c.is_arrangement(),
    ensures
        c.moved(m).is_arrangement(),
        c.moved(m).twists_cancel() == c.twists_cancel(),
        c.moved(m).flips_cancel() == c.flips_cancel(),
        (c.moved(m).corners_odd() == c.moved(m).edges_odd()) == ((c.corners_odd() == c.edges_odd()) == (inner_quarters(m) % 2
            == 0)),
{
    match m {
        MoveNotation::R => {
            lemma_quarter_invariants(c, Turn::R);
        },
        MoveNotation::Rp => {
            lemma_quarter_back_invariants(c, Turn::R);
        },
        MoveNotation::R2 => {
            lemma_quarter_invariants(c, Turn::R);
            lemma_quarter_invariants(c.quarter(Turn::R), Turn::R);
        },
        MoveNotation::r => {
            lemma_quarter_invariants(c, Turn::R);
            lemma_quarter_back_invariants(c.quarter(Turn::R), Turn::M);
        },
        MoveNotation::rp => {
            lemma_quarter_invariants(c, Turn::M);
            lemma_quarter_back_invariants(c.quarter(Turn::M), Turn::R);
        },
        MoveNotation::r2 => {
            lemma_quarter_invariants(c, Turn::R);
            lemma_quarter_back_invariants(c.quarter(Turn::R), Turn::M);
            lemma_quarter_invariants(c.quarter(Turn::R).quarter_back(Turn::M), Turn::R);
            lemma_quarter_back_invariants(c.quarter(Turn::R).quarter_back(Turn::M).quarter(Turn::R), Turn::M);
        },
        MoveNotation::U => {
            lemma_quarter_invariants(c, Turn::U);
        },
        MoveNotation::Up => {
            lemma_quarter_back_invariants(c, Turn::U);
        },
        MoveNotation::U2 => {
            lemma_quarter_invariants(c, Turn::U);
            lemma_quarter_invariants(c.quarter(Turn::U), Turn::U);
        },
        MoveNotation::u => {
            lemma_quarter_invariants(c, Turn::U);
            lemma_quarter_back_invariants(c.quarter(Turn::U), Turn::E);
        },
        MoveNotation::up => {
            lemma_quarter_invariants(c, Turn::E);
            lemma_quarter_back_invariants(c.quarter(Turn::E), Turn::U);
        },
        MoveNotation::u2 => {
            lemma_quarter_invariants(c, Turn::U);
            lemma_quarter_back_invariants(c.quarter(Turn::U), Turn::E);
            lemma_quarter_invariants(c.quarter(Turn::U).quarter_back(Turn::E), Turn::U);
            lemma_quarter_back_invariants(c.quarter(Turn::U).quarter_back(Turn::E).quarter(Turn::U), Turn::E);
        },
        MoveNotation::L => {
            lemma_quarter_invariants(c, Turn::L);
        },
        MoveNotation::Lp => {
            lemma_quarter_back_invariants(c, Turn::L);
        },
        MoveNotation::L2 => {
            lemma_quarter_invariants(c, Turn::L);
            lemma_quarter_invariants(c.quarter(Turn::L), Turn::L);
        },
        MoveNotation::l => {
            lemma_quarter_invariants(c, Turn::L);
            lemma_quarter_invariants(c.quarter(Turn::L), Turn::M);
        },
        MoveNotation::lp => {
            lemma_quarter_back_invariants(c, Turn::M);
            lemma_quarter_back_invariants(c.quarter_back(Turn::M), Turn::L);
        },
        MoveNotation::l2 => {
            lemma_quarter_invariants(c, Turn::L);
            lemma_quarter_invariants(c.quarter(Turn::L), Turn::M);
            lemma_quarter_invariants(c.quarter(Turn::L).quarter(Turn::M), Turn::L);
            lemma_quarter_invariants(c.quarter(Turn::L).quarter(Turn::M).quarter(Turn::L), Turn::M);
        },
        MoveNotation::D => {
            lemma_quarter_invariants(c, Turn::D);
        },
        MoveNotation::Dp => {
            lemma_quarter_back_invariants(c, Turn::D);
        },
        MoveNotation::D2 => {
            lemma_quarter_invariants(c, Turn::D);
            lemma_quarter_invariants(c.quarter(Turn::D), Turn::D);
        },
        MoveNotation::d => {
            lemma_quarter_invariants(c, Turn::D);
            lemma_quarter_invariants(c.quarter(Turn::D), Turn::E);
        },
        MoveNotation::dp => {
            lemma_quarter_back_invariants(c, Turn::E);
            lemma_quarter_back_invariants(c.quarter_back(Turn::E), Turn::D);
        },
        MoveNotation::d2 => {
            lemma_quarter_invariants(c, Turn::D);
            lemma_quarter_invariants(c.quarter(Turn::D), Turn::E);
            lemma_quarter_invariants(c.quarter(Turn::D).quarter(Turn::E), Turn::D);
            lemma_quarter_invariants(c.quarter(Turn::D).quarter(Turn::E).quarter(Turn::D), Turn::E);
        },
        MoveNotation::F => {
            lemma_quarter_invariants(c, Turn::F);
        },
        MoveNotation::Fp => {
            lemma_quarter_back_invariants(c, Turn::F);
        },
        MoveNotation::F2 => {
            lemma_quarter_invariants(c, Turn::F);
            lemma_quarter_invariants(c.quarter(Turn::F), Turn::F);
        },
        MoveNotation::f => {
            lemma_quarter_invariants(c, Turn::F);
            lemma_quarter_invariants(c.quarter(Turn::F), Turn::S);
        },
        MoveNotation::fp => {
            lemma_quarter_back_invariants(c, Turn::S);
            lemma_quarter_back_invariants(c.quarter_back(Turn::S), Turn::F);
        },
        MoveNotation::f2 => {
            lemma_quarter_invariants(c, Turn::F);
            lemma_quarter_invariants(c.quarter(Turn::F), Turn::S);
            lemma_quarter_invariants(c.quarter(Turn::F).quarter(Turn::S), Turn::F);
            lemma_quarter_invariants(c.quarter(Turn::F).quarter(Turn::S).quarter(Turn::F), Turn::S);
        },
        MoveNotation::B => {
            lemma_quarter_invariants(c, Turn::B);
        },
        MoveNotation::Bp => {
            lemma_quarter_back_invariants(c, Turn::B);
        },
        MoveNotation::B2 => {
            lemma_quarter_invariants(c, Turn::B);
            lemma_quarter_invariants(c.quarter(Turn::B), Turn::B);
        },
        MoveNotation::b => {
            lemma_quarter_invariants(c, Turn::B);
            lemma_quarter_back_invariants(c.quarter(Turn::B), Turn::S);
        },
        MoveNotation::bp => {
            lemma_quarter_invariants(c, Turn::S);
            lemma_quarter_back_invariants(c.quarter(Turn::S), Turn::B);
        },
        MoveNotation::b2 => {
            lemma_quarter_invariants(c, Turn::B);
            lemma_quarter_back_invariants(c.quarter(Turn::B), Turn::S);
            lemma_quarter_invariants(c.quarter(Turn::B).quarter_back(Turn::S), Turn::B);
            lemma_quarter_back_invariants(c.quarter(Turn::B).quarter_back(Turn::S).quarter(Turn::B), Turn::S);
        },
        MoveNotation::M => {
            lemma_quarter_invariants(c, Turn::M);
        },
        MoveNotation::Mp => {
            lemma_quarter_back_invariants(c, Turn::M);
        },
        MoveNotation::M2 => {
            lemma_quarter_invariants(c, Turn::M);
            lemma_quarter_invariants(c.quarter(Turn::M), Turn::M);
        },
        MoveNotation::E => {
            lemma_quarter_invariants(c, Turn::E);
        },
        MoveNotation::Ep => {
            lemma_quarter_back_invariants(c, Turn::E);
        },
        MoveNotation::E2 => {
            lemma_quarter_invariants(c, Turn::E);
            lemma_quarter_invariants(c.quarter(Turn::E), Turn::E);
        },
        MoveNotation::S => {
            lemma_quarter_invariants(c, Turn::S);
        },
        MoveNotation::Sp => {
            lemma_quarter_back_invariants(c, Turn::S);
        },
        MoveNotation::S2 => {
            lemma_quarter_invariants(c, Turn::S);
            lemma_quarter_invariants(c.quarter(Turn::S), Turn::S);
        },
        MoveNotation::x => {
            lemma_quarter_invariants(c, Turn::R);
            lemma_quarter_back_invariants(c.quarter(Turn::R), Turn::M);
            lemma_quarter_back_invariants(c.quarter(Turn::R).quarter_back(Turn::M), Turn::L);
        },
        MoveNotation::xp => {
            lemma_quarter_invariants(c, Turn::L);
            lemma_quarter_invariants(c.quarter(Turn::L), Turn::M);
            lemma_quarter_back_invariants(c.quarter(Turn::L).quarter(Turn::M), Turn::R);
        },
        MoveNotation::x2 => {
            lemma_quarter_invariants(c, Turn::R);
            lemma_quarter_back_invariants(c.quarter(Turn::R), Turn::M);
            lemma_quarter_back_invariants(c.quarter(Turn::R).quarter_back(Turn::M), Turn::L);
            lemma_quarter_invariants(c.quarter(Turn::R).quarter_back(Turn::M).quarter_back(Turn::L), Turn::R);
            lemma_quarter_back_invariants(c.quarter(Turn::R).quarter_back(Turn::M).quarter_back(Turn::L).quarter(Turn::R), Turn::M);
            lemma_quarter_back_invariants(c.quarter(Turn::R).quarter_back(Turn::M).quarter_back(Turn::L).quarter(Turn::R).quarter_back(Turn::M), Turn::L);
        },
        MoveNotation::y => {
            lemma_quarter_invariants(c, Turn::U);
            lemma_quarter_back_invariants(c.quarter(Turn::U), Turn::E);
            lemma_quarter_back_invariants(c.quarter(Turn::U).quarter_back(Turn::E), Turn::D);
        },
        MoveNotation::yp => {
            lemma_quarter_invariants(c, Turn::D);
            lemma_quarter_invariants(c.quarter(Turn::D), Turn::E);
            lemma_quarter_back_invariants(c.quarter(Turn::D).quarter(Turn::E), Turn::U);
        },
        MoveNotation::y2 => {
            lemma_quarter_invariants(c, Turn::U);
            lemma_quarter_back_invariants(c.quarter(Turn::U), Turn::E);
            lemma_quarter_back_invariants(c.quarter(Turn::U).quarter_back(Turn::E), Turn::D);
            lemma_quarter_invariants(c.quarter(Turn::U).quarter_back(Turn::E).quarter_back(Turn::D), Turn::U);
            lemma_quarter_back_invariants(c.quarter(Turn::U).quarter_back(Turn::E).quarter_back(Turn::D).quarter(Turn::U), Turn::E);
            lemma_quarter_back_invariants(c.quarter(Turn::U).quarter_back(Turn::E).quarter_back(Turn::D).quarter(Turn::U).quarter_back(Turn::E), Turn::D);
        },
        MoveNotation::z => {
            lemma_quarter_invariants(c, Turn::F);
            lemma_quarter_invariants(c.quarter(Turn::F), Turn::S);
            lemma_quarter_back_invariants(c.quarter(Turn::F).quarter(Turn::S), Turn::B);
        },
        MoveNotation::zp => {
            lemma_quarter_invariants(c, Turn::B);
            lemma_quarter_back_invariants(c.quarter(Turn::B), Turn::S);
            lemma_quarter_back_invariants(c.quarter(Turn::B).quarter_back(Turn::S), Turn::F);
        },
        MoveNotation::z2 => {
            lemma_quarter_invariants(c, Turn::F);
            lemma_quarter_invariants(c.quarter(Turn::F), Turn::S);
            lemma_quarter_back_invariants(c.quarter(Turn::F).quarter(Turn::S), Turn::B);
            lemma_quarter_invariants(c.quarter(Turn::F).quarter(Turn::S).quarter_back(Turn::B), Turn::F);
            lemma_quarter_invariants(c.quarter(Turn::F).quarter(Turn::S).quarter_back(Turn::B).quarter(Turn::F), Turn::S);
            lemma_quarter_back_invariants(c.quarter(Turn::F).quarter(Turn::S).quarter_back(Turn::B).quarter(Turn::F).quarter(Turn::S), Turn::B);
        },
    }
}

/// The solved cube is in the group, with both permutations even.
pub proof fn lemma_solved_is_legal()
    ensures
        solved().is_legal(),
        !solved().corners_odd(),
        !solved().edges_odd(),
{
    reveal(CubeView::is_arrangement);
    reveal(inversions8);
    reveal(inversions12);
    reveal(corner_twist_sum);
    reveal(edge_flip_sum);
    reveal(above);
    let h = corner_homes(solved().corners);
    let e = edge_homes(solved().edges);
    assert forall|i: int| 0 <= i < 8 implies #[trigger] h[i] == i by {}
    assert forall|i: int| 0 <= i < 12 implies #[trigger] e[i] == i by {}
    assert(inversions8(h) == 0);
    assert(inversions12(e) == 0);
}

/// Every state reached from the solved cube by a sequence of moves is an
/// arrangement of the pieces in which the corner twists cancel and the edge
/// flips cancel; the parities of its two permutations agree exactly if the
/// sequence turns inner layers an even number of quarters.
pub proof fn lemma_reachable_invariants(ms: Seq<MoveNotation>)
    ensures
        solved().moved_all(ms).is_arrangement(),
        solved().moved_all(ms).twists_cancel(),
        solved().moved_all(ms).flips_cancel(),
        (solved().moved_all(ms).corners_odd() == solved().moved_all(ms).edges_odd()) == (inner_quarters_all(ms) % 2 == 0),
    decreases ms.len(),
{
    lemma_solved_is_legal();
    if ms.len() > 0 {
        lemma_reachable_invariants(ms.drop_last());
        lemma_move_invariants(solved().moved_all(ms.drop_last()), ms.last());
    }
}

/// Every state reached from the solved cube by a sequence of moves that
/// turns inner layers an even number of quarters, so every state reached by
/// face turns alone, is in the group of the cube.
pub proof fn lemma_reachable_is_legal(ms: Seq<MoveNotation>)
    requires
        inner_quarters_all(ms) % 2 == 0,
    ensures
        solved().moved_all(ms).is_legal(),
{
    lemma_reachable_invariants(ms);
}

} // verus!
