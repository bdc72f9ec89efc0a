//! The move vocabulary and its interpreter.
//!
//! Every move is a fixed list of quarter turns of the nine layers, and every
//! quarter turn is one four-cycle of edges, for a face also one four-cycle of
//! corners, with a fixed twist for each piece that arrives. The tables below
//! fix them once. Edges are flipped by quarter turns of the front and back
//! faces and of the three inner layers; corners are twisted by quarter turns
//! of the right, left, front and back faces.

use vstd::prelude::*;
use crate::cube::{Comutation, Cube, CubeError, CubeView};
use crate::piece::{Corner, CornerNotation, Edge, EdgeNotation, RotDirection};

verus! {

/// The nine layers that turn.
#[derive(Debug, Copy, Clone, PartialEq, Eq, Structural)]
pub enum Turn {
    /// The right face.
    R,
    /// The upper face.
    U,
    /// The left face.
    L,
    /// The lower face.
    D,
    /// The front face.
    F,
    /// The back face.
    B,
    /// The middle layer between left and right, in the sense of the left face.
    M,
    /// The equatorial layer, in the sense of the lower face.
    E,
    /// The standing layer between front and back, in the sense of the front face.
    S,
}

/// The move tokens. A capital letter is a quarter turn of a face or of an
/// inner layer, clockwise as seen from outside (an inner layer in the sense of
/// the face it follows); `p` marks the inverse, `2` the half turn. A small
/// letter among `r u l d f b` is the wide turn: the face together with the
/// inner layer next to it, both turned the same way in space. `x`, `y`, `z`
/// turn the whole cube in the sense of the right, upper and front face.
#[allow(non_camel_case_types)]
#[derive(Debug, Copy, Clone, PartialEq, Eq, Structural)]
pub enum MoveNotation {
    R, Rp, R2, r, rp, r2,
    U, Up, U2, u, up, u2,
    L, Lp, L2, l, lp, l2,
    D, Dp, D2, d, dp, d2,
    F, Fp, F2, f, fp, f2,
    B, Bp, B2, b, bp, b2,
    M, Mp, M2,
    E, Ep, E2,
    S, Sp, S2,
    x, xp, x2,
    y, yp, y2,
    z, zp, z2,
}

/// Where the piece that arrives in slot `i` comes from, under a four-cycle
/// that sends the piece of its first slot to the second, and so on round.
pub open spec fn cycle_source(c: (int, int, int, int), i: int) -> int {
    if i == c.1 { c.0 } else if i == c.2 { c.1 } else if i == c.3 { c.2 } else if i == c.0 { c.3 } else { i }
}

/// Where the piece in slot `i` goes under the same four-cycle.
pub open spec fn cycle_target(c: (int, int, int, int), i: int) -> int {
    if i == c.0 { c.1 } else if i == c.1 { c.2 } else if i == c.2 { c.3 } else if i == c.3 { c.0 } else { i }
}

/// Whether slot `i` is one of the four slots of the cycle.
pub open spec fn cycle_has(c: (int, int, int, int), i: int) -> bool {
    i == c.0 || i == c.1 || i == c.2 || i == c.3
}

/// The opposite twist, or none for none.
pub open spec fn reversed_twist(r: Option<RotDirection>) -> Option<RotDirection> {
    match r {
        Some(d) => Some(d.reversed()),
        None => None,
    }
}

impl Corner {
    /// The corner after an optional twist.
    pub open spec fn twisted(self, r: Option<RotDirection>) -> Corner {
        match r {
            Some(d) => self.rotated(d),
            None => self,
        }
    }
}

impl Edge {
    /// The edge, flipped if asked.
    pub open spec fn flipped_if(self, flip: bool) -> Edge {
        if flip { Edge(self.0.flipped(), self.1) } else { self }
    }
}

impl Turn {
    /// The four corner slots that a clockwise quarter turn cycles, each
    /// piece going to the slot named next (the last to the first). An inner
    /// layer holds no corner. Slots are given by index.
    pub open spec fn corner_cycle(self) -> Option<(int, int, int, int)> {
        match self {
            Turn::R => Some((0, 3, 7, 4)),   // A -> D -> H -> E
            Turn::U => Some((0, 1, 2, 3)),   // A -> B -> C -> D
            Turn::L => Some((1, 5, 6, 2)),   // B -> F -> G -> C
            Turn::D => Some((4, 7, 6, 5)),   // E -> H -> G -> F
            Turn::F => Some((0, 4, 5, 1)),   // A -> E -> F -> B
            Turn::B => Some((2, 6, 7, 3)),   // C -> G -> H -> D
            Turn::M => None,
            Turn::E => None,
            Turn::S => None,
        }
    }

    /// The twist given to the corner that arrives in slot `i` on a clockwise
    /// quarter turn.
    pub open spec fn corner_twist(self, i: int) -> Option<RotDirection> {
        match self {
            Turn::R => if i == 0 { Some(RotDirection::Left) } else if i == 3 { Some(RotDirection::Right) } else if i == 7 { Some(RotDirection::Left) } else if i == 4 { Some(RotDirection::Right) } else { None },
            Turn::L => if i == 1 { Some(RotDirection::Right) } else if i == 5 { Some(RotDirection::Left) } else if i == 6 { Some(RotDirection::Right) } else if i == 2 { Some(RotDirection::Left) } else { None },
            Turn::F => if i == 0 { Some(RotDirection::Right) } else if i == 4 { Some(RotDirection::Left) } else if i == 5 { Some(RotDirection::Right) } else if i == 1 { Some(RotDirection::Left) } else { None },
            Turn::B => if i == 2 { Some(RotDirection::Right) } else if i == 6 { Some(RotDirection::Left) } else if i == 7 { Some(RotDirection::Right) } else if i == 3 { Some(RotDirection::Left) } else { None },
            _ => None,
        }
    }

    /// The four edge slots that a clockwise quarter turn cycles, each piece
    /// going to the slot named next (the last to the first).
    pub open spec fn edge_cycle(self) -> (int, int, int, int) {
        match self {
            Turn::R => (0, 11, 4, 8),   // I -> T -> M -> Q
            Turn::U => (0, 1, 2, 3),   // I -> J -> K -> L
            Turn::L => (2, 9, 6, 10),   // K -> R -> O -> S
            Turn::D => (4, 7, 6, 5),   // M -> P -> O -> N
            Turn::F => (1, 8, 5, 9),   // J -> Q -> N -> R
            Turn::B => (3, 10, 7, 11),   // L -> S -> P -> T
            Turn::M => (1, 5, 7, 3),   // J -> N -> P -> L
            Turn::E => (8, 11, 10, 9),   // Q -> T -> S -> R
            Turn::S => (0, 4, 6, 2),   // I -> M -> O -> K
        }
    }

    /// Whether a quarter turn flips the four edges that it moves.
    pub open spec fn flips_edges(self) -> bool {
        match self {
            Turn::F | Turn::B | Turn::M | Turn::E | Turn::S => true,
            _ => false,
        }
    }

    /// Slot from which the corner in slot `i` has come after a clockwise
    /// quarter turn.
    pub open spec fn corner_source(self, i: int) -> int {
        match self.corner_cycle() {
            Some(c) => cycle_source(c, i),
            None => i,
        }
    }

    /// Slot to which the corner in slot `i` goes on a clockwise quarter turn.
    pub open spec fn corner_target(self, i: int) -> int {
        match self.corner_cycle() {
            Some(c) => cycle_target(c, i),
            None => i,
        }
    }
}

impl CubeView {
    /// The state after a clockwise quarter turn of one layer: each slot gets
    /// the piece of its source slot, twisted as the table says.
    pub open spec fn quarter(self, t: Turn) -> CubeView {
        CubeView {
            corners: Seq::new(8, |i: int| self.corners[t.corner_source(i)].twisted(t.corner_twist(i))),
            edges: Seq::new(
                12,
                |i: int| self.edges[cycle_source(t.edge_cycle(), i)].flipped_if(t.flips_edges() && cycle_has(t.edge_cycle(), i)),
            ),
        }
    }

    /// The state after a counter-clockwise quarter turn of one layer: each
    /// slot gets back the piece that the clockwise turn would send on from it,
    /// with the twist undone.
    pub open spec fn quarter_back(self, t: Turn) -> CubeView {
        CubeView {
            corners: Seq::new(
                8,
                |i: int| self.corners[t.corner_target(i)].twisted(reversed_twist(t.corner_twist(t.corner_target(i)))),
            ),
            edges: Seq::new(
                12,
                |i: int| self.edges[cycle_target(t.edge_cycle(), i)].flipped_if(t.flips_edges() && cycle_has(t.edge_cycle(), i)),
            ),
        }
    }

    /// The state after one move.
    pub open spec fn moved(self, m: MoveNotation) -> CubeView {
        match m {
            MoveNotation::R => self.quarter(Turn::R),
            MoveNotation::Rp => self.quarter_back(Turn::R),
            MoveNotation::R2 => self.quarter(Turn::R).quarter(Turn::R),
            MoveNotation::r => self.quarter(Turn::R).quarter_back(Turn::M),
            MoveNotation::rp => self.quarter(Turn::M).quarter_back(Turn::R),
            MoveNotation::r2 => self.quarter(Turn::R).quarter_back(Turn::M).quarter(Turn::R).quarter_back(Turn::M),
            MoveNotation::U => self.quarter(Turn::U),
            MoveNotation::Up => self.quarter_back(Turn::U),
            MoveNotation::U2 => self.quarter(Turn::U).quarter(Turn::U),
            MoveNotation::u => self.quarter(Turn::U).quarter_back(Turn::E),
            MoveNotation::up => self.quarter(Turn::E).quarter_back(Turn::U),
            MoveNotation::u2 => self.quarter(Turn::U).quarter_back(Turn::E).quarter(Turn::U).quarter_back(Turn::E),
            MoveNotation::L => self.quarter(Turn::L),
            MoveNotation::Lp => self.quarter_back(Turn::L),
            MoveNotation::L2 => self.quarter(Turn::L).quarter(Turn::L),
            MoveNotation::l => self.quarter(Turn::L).quarter(Turn::M),
            MoveNotation::lp => self.quarter_back(Turn::M).quarter_back(Turn::L),
            MoveNotation::l2 => self.quarter(Turn::L).quarter(Turn::M).quarter(Turn::L).quarter(Turn::M),
            MoveNotation::D => self.quarter(Turn::D),
            MoveNotation::Dp => self.quarter_back(Turn::D),
            MoveNotation::D2 => self.quarter(Turn::D).quarter(Turn::D),
            MoveNotation::d => self.quarter(Turn::D).quarter(Turn::E),
            MoveNotation::dp => self.quarter_back(Turn::E).quarter_back(Turn::D),
            MoveNotation::d2 => self.quarter(Turn::D).quarter(Turn::E).quarter(Turn::D).quarter(Turn::E),
            MoveNotation::F => self.quarter(Turn::F),
            MoveNotation::Fp => self.quarter_back(Turn::F),
            MoveNotation::F2 => self.quarter(Turn::F).quarter(Turn::F),
            MoveNotation::f => self.quarter(Turn::F).quarter(Turn::S),
            MoveNotation::fp => self.quarter_back(Turn::S).quarter_back(Turn::F),
            MoveNotation::f2 => self.quarter(Turn::F).quarter(Turn::S).quarter(Turn::F).quarter(Turn::S),
            MoveNotation::B => self.quarter(Turn::B),
            MoveNotation::Bp => self.quarter_back(Turn::B),
            MoveNotation::B2 => self.quarter(Turn::B).quarter(Turn::B),
            MoveNotation::b => self.quarter(Turn::B).quarter_back(Turn::S),
            MoveNotation::bp => self.quarter(Turn::S).quarter_back(Turn::B),
            MoveNotation::b2 => self.quarter(Turn::B).quarter_back(Turn::S).quarter(Turn::B).quarter_back(Turn::S),
            MoveNotation::M => self.quarter(Turn::M),
            MoveNotation::Mp => self.quarter_back(Turn::M),
            MoveNotation::M2 => self.quarter(Turn::M).quarter(Turn::M),
            MoveNotation::E => self.quarter(Turn::E),
            MoveNotation::Ep => self.quarter_back(Turn::E),
            MoveNotation::E2 => self.quarter(Turn::E).quarter(Turn::E),
            MoveNotation::S => self.quarter(Turn::S),
            MoveNotation::Sp => self.quarter_back(Turn::S),
            MoveNotation::S2 => self.quarter(Turn::S).quarter(Turn::S),
            MoveNotation::x => self.quarter(Turn::R).quarter_back(Turn::M).quarter_back(Turn::L),
            MoveNotation::xp => self.quarter(Turn::L).quarter(Turn::M).quarter_back(Turn::R),
            MoveNotation::x2 => self.quarter(Turn::R).quarter_back(Turn::M).quarter_back(Turn::L).quarter(Turn::R).quarter_back(Turn::M).quarter_back(Turn::L),
            MoveNotation::y => self.quarter(Turn::U).quarter_back(Turn::E).quarter_back(Turn::D),
            MoveNotation::yp => self.quarter(Turn::D).quarter(Turn::E).quarter_back(Turn::U),
            MoveNotation::y2 => self.quarter(Turn::U).quarter_back(Turn::E).quarter_back(Turn::D).quarter(Turn::U).quarter_back(Turn::E).quarter_back(Turn::D),
            MoveNotation::z => self.quarter(Turn::F).quarter(Turn::S).quarter_back(Turn::B),
            MoveNotation::zp => self.quarter(Turn::B).quarter_back(Turn::S).quarter_back(Turn::F),
            MoveNotation::z2 => self.quarter(Turn::F).quarter(Turn::S).quarter_back(Turn::B).quarter(Turn::F).quarter(Turn::S).quarter_back(Turn::B),
        }
    }

    /// The state after a sequence of moves, applied first to last.
    pub open spec fn moved_all(self, ms: Seq<MoveNotation>) -> CubeView
        decreases ms.len(),
    {
        if ms.len() == 0 {
            self
        } else {
            self.moved_all(ms.drop_last()).moved(ms.last())
        }
    }
}

impl MoveNotation {
    /// The token that undoes this one.
    pub open spec fn inverted(self) -> MoveNotation {
        match self {
            MoveNotation::R => MoveNotation::Rp,
            MoveNotation::Rp => MoveNotation::R,
            MoveNotation::R2 => MoveNotation::R2,
            MoveNotation::r => MoveNotation::rp,
            MoveNotation::rp => MoveNotation::r,
            MoveNotation::r2 => MoveNotation::r2,
            MoveNotation::U => MoveNotation::Up,
            MoveNotation::Up => MoveNotation::U,
            MoveNotation::U2 => MoveNotation::U2,
            MoveNotation::u => MoveNotation::up,
            MoveNotation::up => MoveNotation::u,
            MoveNotation::u2 => MoveNotation::u2,
            MoveNotation::L => MoveNotation::Lp,
            MoveNotation::Lp => MoveNotation::L,
            MoveNotation::L2 => MoveNotation::L2,
            MoveNotation::l => MoveNotation::lp,
            MoveNotation::lp => MoveNotation::l,
            MoveNotation::l2 => MoveNotation::l2,
            MoveNotation::D => MoveNotation::Dp,
            MoveNotation::Dp => MoveNotation::D,
            MoveNotation::D2 => MoveNotation::D2,
            MoveNotation::d => MoveNotation::dp,
            MoveNotation::dp => MoveNotation::d,
            MoveNotation::d2 => MoveNotation::d2,
            MoveNotation::F => MoveNotation::Fp,
            MoveNotation::Fp => MoveNotation::F,
            MoveNotation::F2 => MoveNotation::F2,
            MoveNotation::f => MoveNotation::fp,
            MoveNotation::fp => MoveNotation::f,
            MoveNotation::f2 => MoveNotation::f2,
            MoveNotation::B => MoveNotation::Bp,
            MoveNotation::Bp => MoveNotation::B,
            MoveNotation::B2 => MoveNotation::B2,
            MoveNotation::b => MoveNotation::bp,
            MoveNotation::bp => MoveNotation::b,
            MoveNotation::b2 => MoveNotation::b2,
            MoveNotation::M => MoveNotation::Mp,
            MoveNotation::Mp => MoveNotation::M,
            MoveNotation::M2 => MoveNotation::M2,
            MoveNotation::E => MoveNotation::Ep,
            MoveNotation::Ep => MoveNotation::E,
            MoveNotation::E2 => MoveNotation::E2,
            MoveNotation::S => MoveNotation::Sp,
            MoveNotation::Sp => MoveNotation::S,
            MoveNotation::S2 => MoveNotation::S2,
            MoveNotation::x => MoveNotation::xp,
            MoveNotation::xp => MoveNotation::x,
            MoveNotation::x2 => MoveNotation::x2,
            MoveNotation::y => MoveNotation::yp,
            MoveNotation::yp => MoveNotation::y,
            MoveNotation::y2 => MoveNotation::y2,
            MoveNotation::z => MoveNotation::zp,
            MoveNotation::zp => MoveNotation::z,
            MoveNotation::z2 => MoveNotation::z2,
        }
    }

    /// The half turn of which this token is the clockwise quarter turn; none
    /// for a token that is an inverse or a half turn itself.
    pub open spec fn doubled(self) -> Option<MoveNotation> {
        match self {
            MoveNotation::R => Some(MoveNotation::R2),
            MoveNotation::r => Some(MoveNotation::r2),
            MoveNotation::U => Some(MoveNotation::U2),
            MoveNotation::u => Some(MoveNotation::u2),
            MoveNotation::L => Some(MoveNotation::L2),
            MoveNotation::l => Some(MoveNotation::l2),
            MoveNotation::D => Some(MoveNotation::D2),
            MoveNotation::d => Some(MoveNotation::d2),
            MoveNotation::F => Some(MoveNotation::F2),
            MoveNotation::f => Some(MoveNotation::f2),
            MoveNotation::B => Some(MoveNotation::B2),
            MoveNotation::b => Some(MoveNotation::b2),
            MoveNotation::M => Some(MoveNotation::M2),
            MoveNotation::E => Some(MoveNotation::E2),
            MoveNotation::S => Some(MoveNotation::S2),
            MoveNotation::x => Some(MoveNotation::x2),
            MoveNotation::y => Some(MoveNotation::y2),
            MoveNotation::z => Some(MoveNotation::z2),
            _ => None,
        }
    }

    /// The token that undoes this one.
    pub fn inverse(&self) -> (res: MoveNotation)
        ensures
            res == self.inverted(),
    {
        match self {
            MoveNotation::R => MoveNotation::Rp,
            MoveNotation::Rp => MoveNotation::R,
            MoveNotation::R2 => MoveNotation::R2,
            MoveNotation::r => MoveNotation::rp,
            MoveNotation::rp => MoveNotation::r,
            MoveNotation::r2 => MoveNotation::r2,
            MoveNotation::U => MoveNotation::Up,
            MoveNotation::Up => MoveNotation::U,
            MoveNotation::U2 => MoveNotation::U2,
            MoveNotation::u => MoveNotation::up,
            MoveNotation::up => MoveNotation::u,
            MoveNotation::u2 => MoveNotation::u2,
            MoveNotation::L => MoveNotation::Lp,
            MoveNotation::Lp => MoveNotation::L,
            MoveNotation::L2 => MoveNotation::L2,
            MoveNotation::l => MoveNotation::lp,
            MoveNotation::lp => MoveNotation::l,
            MoveNotation::l2 => MoveNotation::l2,
            MoveNotation::D => MoveNotation::Dp,
            MoveNotation::Dp => MoveNotation::D,
            MoveNotation::D2 => MoveNotation::D2,
            MoveNotation::d => MoveNotation::dp,
            MoveNotation::dp => MoveNotation::d,
            MoveNotation::d2 => MoveNotation::d2,
            MoveNotation::F => MoveNotation::Fp,
            MoveNotation::Fp => MoveNotation::F,
            MoveNotation::F2 => MoveNotation::F2,
            MoveNotation::f => MoveNotation::fp,
            MoveNotation::fp => MoveNotation::f,
            MoveNotation::f2 => MoveNotation::f2,
            MoveNotation::B => MoveNotation::Bp,
            MoveNotation::Bp => MoveNotation::B,
            MoveNotation::B2 => MoveNotation::B2,
            MoveNotation::b => MoveNotation::bp,
            MoveNotation::bp => MoveNotation::b,
            MoveNotation::b2 => MoveNotation::b2,
            MoveNotation::M => MoveNotation::Mp,
            MoveNotation::Mp => MoveNotation::M,
            MoveNotation::M2 => MoveNotation::M2,
            MoveNotation::E => MoveNotation::Ep,
            MoveNotation::Ep => MoveNotation::E,
            MoveNotation::E2 => MoveNotation::E2,
            MoveNotation::S => MoveNotation::Sp,
            MoveNotation::Sp => MoveNotation::S,
            MoveNotation::S2 => MoveNotation::S2,
            MoveNotation::x => MoveNotation::xp,
            MoveNotation::xp => MoveNotation::x,
            MoveNotation::x2 => MoveNotation::x2,
            MoveNotation::y => MoveNotation::yp,
            MoveNotation::yp => MoveNotation::y,
            MoveNotation::y2 => MoveNotation::y2,
            MoveNotation::z => MoveNotation::zp,
            MoveNotation::zp => MoveNotation::z,
            MoveNotation::z2 => MoveNotation::z2,
        }
    }

    /// The half turn of which this token is the clockwise quarter turn; none
    /// for a token that is an inverse or a half turn itself.
    pub fn double(&self) -> (res: Option<MoveNotation>)
        ensures
            res == self.doubled(),
    {
        match self {
            MoveNotation::R => Some(MoveNotation::R2),
            MoveNotation::r => Some(MoveNotation::r2),
            MoveNotation::U => Some(MoveNotation::U2),
            MoveNotation::u => Some(MoveNotation::u2),
            MoveNotation::L => Some(MoveNotation::L2),
            MoveNotation::l => Some(MoveNotation::l2),
            MoveNotation::D => Some(MoveNotation::D2),
            MoveNotation::d => Some(MoveNotation::d2),
            MoveNotation::F => Some(MoveNotation::F2),
            MoveNotation::f => Some(MoveNotation::f2),
            MoveNotation::B => Some(MoveNotation::B2),
            MoveNotation::b => Some(MoveNotation::b2),
            MoveNotation::M => Some(MoveNotation::M2),
            MoveNotation::E => Some(MoveNotation::E2),
            MoveNotation::S => Some(MoveNotation::S2),
            MoveNotation::x => Some(MoveNotation::x2),
            MoveNotation::y => Some(MoveNotation::y2),
            MoveNotation::z => Some(MoveNotation::z2),
            _ => None,
        }
    }
}

impl Cube {
    /// Turns one layer a quarter clockwise: one exchange of a pair and one
    /// three-cycle in each class of piece that the layer holds.
    pub fn turn(&mut self, t: Turn) -> (res: Result<(), CubeError>)
        ensures
            res == Ok::<(), CubeError>(()),
            final(self)@ == old(self)@.quarter(t),
    {
        match t {
            Turn::R => {
                self.pair_swap(Comutation(CornerNotation::A, Some(RotDirection::Right)), Comutation(CornerNotation::D, Some(RotDirection::Left)), Comutation(EdgeNotation::I, None), Comutation(EdgeNotation::T, None));
                self.corner_swap_right(Comutation(CornerNotation::E, Some(RotDirection::Left)), Comutation(CornerNotation::A, None), Comutation(CornerNotation::H, Some(RotDirection::Right)))?;
                self.edge_swap_right(Comutation(EdgeNotation::Q, None), Comutation(EdgeNotation::I, None), Comutation(EdgeNotation::M, None))?;
            },
            Turn::U => {
                self.pair_swap(Comutation(CornerNotation::A, None), Comutation(CornerNotation::B, None), Comutation(EdgeNotation::I, None), Comutation(EdgeNotation::J, None));
                self.corner_swap_right(Comutation(CornerNotation::D, None), Comutation(CornerNotation::A, None), Comutation(CornerNotation::C, None))?;
                self.edge_swap_right(Comutation(EdgeNotation::L, None), Comutation(EdgeNotation::I, None), Comutation(EdgeNotation::K, None))?;
            },
            Turn::L => {
                self.pair_swap(Comutation(CornerNotation::B, Some(RotDirection::Left)), Comutation(CornerNotation::F, Some(RotDirection::Right)), Comutation(EdgeNotation::K, None), Comutation(EdgeNotation::R, None));
                self.corner_swap_right(Comutation(CornerNotation::C, Some(RotDirection::Right)), Comutation(CornerNotation::B, None), Comutation(CornerNotation::G, Some(RotDirection::Left)))?;
                self.edge_swap_right(Comutation(EdgeNotation::S, None), Comutation(EdgeNotation::K, None), Comutation(EdgeNotation::O, None))?;
            },
            Turn::D => {
                self.pair_swap(Comutation(CornerNotation::E, None), Comutation(CornerNotation::H, None), Comutation(EdgeNotation::M, None), Comutation(EdgeNotation::P, None));
                self.corner_swap_right(Comutation(CornerNotation::F, None), Comutation(CornerNotation::E, None), Comutation(CornerNotation::G, None))?;
                self.edge_swap_right(Comutation(EdgeNotation::N, None), Comutation(EdgeNotation::M, None), Comutation(EdgeNotation::O, None))?;
            },
            Turn::F => {
                self.pair_swap(Comutation(CornerNotation::A, Some(RotDirection::Left)), Comutation(CornerNotation::E, Some(RotDirection::Right)), Comutation(EdgeNotation::J, Some(RotDirection::Right)), Comutation(EdgeNotation::Q, Some(RotDirection::Right)));
                self.corner_swap_right(Comutation(CornerNotation::B, Some(RotDirection::Right)), Comutation(CornerNotation::A, None), Comutation(CornerNotation::F, Some(RotDirection::Left)))?;
                self.edge_swap_right(Comutation(EdgeNotation::R, Some(RotDirection::Right)), Comutation(EdgeNotation::J, None), Comutation(EdgeNotation::N, Some(RotDirection::Right)))?;
            },
            Turn::B => {
                self.pair_swap(Comutation(CornerNotation::C, Some(RotDirection::Left)), Comutation(CornerNotation::G, Some(RotDirection::Right)), Comutation(EdgeNotation::L, Some(RotDirection::Right)), Comutation(EdgeNotation::S, Some(RotDirection::Right)));
                self.corner_swap_right(Comutation(CornerNotation::D, Some(RotDirection::Right)), Comutation(CornerNotation::C, None), Comutation(CornerNotation::H, Some(RotDirection::Left)))?;
                self.edge_swap_right(Comutation(EdgeNotation::T, Some(RotDirection::Right)), Comutation(EdgeNotation::L, None), Comutation(EdgeNotation::P, Some(RotDirection::Right)))?;
            },
            Turn::M => {
                self.pair_swap(Comutation(CornerNotation::A, None), Comutation(CornerNotation::A, None), Comutation(EdgeNotation::J, Some(RotDirection::Right)), Comutation(EdgeNotation::N, Some(RotDirection::Right)));
                self.edge_swap_right(Comutation(EdgeNotation::L, Some(RotDirection::Right)), Comutation(EdgeNotation::J, None), Comutation(EdgeNotation::P, Some(RotDirection::Right)))?;
            },
            Turn::E => {
                self.pair_swap(Comutation(CornerNotation::A, None), Comutation(CornerNotation::A, None), Comutation(EdgeNotation::Q, Some(RotDirection::Right)), Comutation(EdgeNotation::T, Some(RotDirection::Right)));
                self.edge_swap_right(Comutation(EdgeNotation::R, Some(RotDirection::Right)), Comutation(EdgeNotation::Q, None), Comutation(EdgeNotation::S, Some(RotDirection::Right)))?;
            },
            Turn::S => {
                self.pair_swap(Comutation(CornerNotation::A, None), Comutation(CornerNotation::A, None), Comutation(EdgeNotation::I, Some(RotDirection::Right)), Comutation(EdgeNotation::M, Some(RotDirection::Right)));
                self.edge_swap_right(Comutation(EdgeNotation::K, Some(RotDirection::Right)), Comutation(EdgeNotation::I, None), Comutation(EdgeNotation::O, Some(RotDirection::Right)))?;
            },
        }
        assert(self@.corners =~= old(self)@.quarter(t).corners);
        assert(self@.edges =~= old(self)@.quarter(t).edges);
        Ok(())
    }

    /// Turns one layer a quarter counter-clockwise: the steps of the
    /// clockwise turn undone in reverse order, with left cycles for right.
    pub fn turn_back(&mut self, t: Turn) -> (res: Result<(), CubeError>)
        ensures
            res == Ok::<(), CubeError>(()),
            final(self)@ == old(self)@.quarter_back(t),
    {
        match t {
            Turn::R => {
                self.edge_swap_left(Comutation(EdgeNotation::Q, None), Comutation(EdgeNotation::I, None), Comutation(EdgeNotation::M, None))?;
                self.corner_swap_left(Comutation(CornerNotation::E, Some(RotDirection::Left)), Comutation(CornerNotation::A, Some(RotDirection::Right)), Comutation(CornerNotation::H, None))?;
                self.pair_swap(Comutation(CornerNotation::A, Some(RotDirection::Right)), Comutation(CornerNotation::D, Some(RotDirection::Left)), Comutation(EdgeNotation::I, None), Comutation(EdgeNotation::T, None));
            },
            Turn::U => {
                self.edge_swap_left(Comutation(EdgeNotation::L, None), Comutation(EdgeNotation::I, None), Comutation(EdgeNotation::K, None))?;
                self.corner_swap_left(Comutation(CornerNotation::D, None), Comutation(CornerNotation::A, None), Comutation(CornerNotation::C, None))?;
                self.pair_swap(Comutation(CornerNotation::A, None), Comutation(CornerNotation::B, None), Comutation(EdgeNotation::I, None), Comutation(EdgeNotation::J, None));
            },
            Turn::L => {
                self.edge_swap_left(Comutation(EdgeNotation::S, None), Comutation(EdgeNotation::K, None), Comutation(EdgeNotation::O, None))?;
                self.corner_swap_left(Comutation(CornerNotation::C, Some(RotDirection::Right)), Comutation(CornerNotation::B, Some(RotDirection::Left)), Comutation(CornerNotation::G, None))?;
                self.pair_swap(Comutation(CornerNotation::B, Some(RotDirection::Left)), Comutation(CornerNotation::F, Some(RotDirection::Right)), Comutation(EdgeNotation::K, None), Comutation(EdgeNotation::R, None));
            },
            Turn::D => {
                self.edge_swap_left(Comutation(EdgeNotation::N, None), Comutation(EdgeNotation::M, None), Comutation(EdgeNotation::O, None))?;
                self.corner_swap_left(Comutation(CornerNotation::F, None), Comutation(CornerNotation::E, None), Comutation(CornerNotation::G, None))?;
                self.pair_swap(Comutation(CornerNotation::E, None), Comutation(CornerNotation::H, None), Comutation(EdgeNotation::M, None), Comutation(EdgeNotation::P, None));
            },
            Turn::F => {
                self.edge_swap_left(Comutation(EdgeNotation::R, Some(RotDirection::Right)), Comutation(EdgeNotation::J, Some(RotDirection::Right)), Comutation(EdgeNotation::N, None))?;
                self.corner_swap_left(Comutation(CornerNotation::B, Some(RotDirection::Right)), Comutation(CornerNotation::A, Some(RotDirection::Left)), Comutation(CornerNotation::F, None))?;
                self.pair_swap(Comutation(CornerNotation::A, Some(RotDirection::Left)), Comutation(CornerNotation::E, Some(RotDirection::Right)), Comutation(EdgeNotation::J, Some(RotDirection::Right)), Comutation(EdgeNotation::Q, Some(RotDirection::Right)));
            },
            Turn::B => {
                self.edge_swap_left(Comutation(EdgeNotation::T, Some(RotDirection::Right)), Comutation(EdgeNotation::L, Some(RotDirection::Right)), Comutation(EdgeNotation::P, None))?;
                self.corner_swap_left(Comutation(CornerNotation::D, Some(RotDirection::Right)), Comutation(CornerNotation::C, Some(RotDirection::Left)), Comutation(CornerNotation::H, None))?;
                self.pair_swap(Comutation(CornerNotation::C, Some(RotDirection::Left)), Comutation(CornerNotation::G, Some(RotDirection::Right)), Comutation(EdgeNotation::L, Some(RotDirection::Right)), Comutation(EdgeNotation::S, Some(RotDirection::Right)));
            },
            Turn::M => {
                self.edge_swap_left(Comutation(EdgeNotation::L, Some(RotDirection::Right)), Comutation(EdgeNotation::J, Some(RotDirection::Right)), Comutation(EdgeNotation::P, None))?;
                self.pair_swap(Comutation(CornerNotation::A, None), Comutation(CornerNotation::A, None), Comutation(EdgeNotation::J, Some(RotDirection::Right)), Comutation(EdgeNotation::N, Some(RotDirection::Right)));
            },
            Turn::E => {
                self.edge_swap_left(Comutation(EdgeNotation::R, Some(RotDirection::Right)), Comutation(EdgeNotation::Q, Some(RotDirection::Right)), Comutation(EdgeNotation::S, None))?;
                self.pair_swap(Comutation(CornerNotation::A, None), Comutation(CornerNotation::A, None), Comutation(EdgeNotation::Q, Some(RotDirection::Right)), Comutation(EdgeNotation::T, Some(RotDirection::Right)));
            },
            Turn::S => {
                self.edge_swap_left(Comutation(EdgeNotation::K, Some(RotDirection::Right)), Comutation(EdgeNotation::I, Some(RotDirection::Right)), Comutation(EdgeNotation::O, None))?;
                self.pair_swap(Comutation(CornerNotation::A, None), Comutation(CornerNotation::A, None), Comutation(EdgeNotation::I, Some(RotDirection::Right)), Comutation(EdgeNotation::M, Some(RotDirection::Right)));
            },
        }
        assert(self@.corners =~= old(self)@.quarter_back(t).corners);
        assert(self@.edges =~= old(self)@.quarter_back(t).edges);
        Ok(())
    }

    /// Applies one move. The vocabulary is closed and every token has its
    /// definition, so the call always succeeds.
    pub fn apply_move(&mut self, m: MoveNotation) -> (res: Result<(), CubeError>)
        ensures
            res == Ok::<(), CubeError>(()),
            final(self)@ == old(self)@.moved(m),
    {
        match m {
            MoveNotation::R => {
                self.turn(Turn::R)?;
            },
            MoveNotation::Rp => {
                self.turn_back(Turn::R)?;
            },
            MoveNotation::R2 => {
                self.turn(Turn::R)?;
                self.turn(Turn::R)?;
            },
            MoveNotation::r => {
                self.turn(Turn::R)?;
                self.turn_back(Turn::M)?;
            },
            MoveNotation::rp => {
                self.turn(Turn::M)?;
                self.turn_back(Turn::R)?;
            },
            MoveNotation::r2 => {
                self.turn(Turn::R)?;
                self.turn_back(Turn::M)?;
                self.turn(Turn::R)?;
                self.turn_back(Turn::M)?;
            },
            MoveNotation::U => {
                self.turn(Turn::U)?;
            },
            MoveNotation::Up => {
                self.turn_back(Turn::U)?;
            },
            MoveNotation::U2 => {
                self.turn(Turn::U)?;
                self.turn(Turn::U)?;
            },
            MoveNotation::u => {
                self.turn(Turn::U)?;
                self.turn_back(Turn::E)?;
            },
            MoveNotation::up => {
                self.turn(Turn::E)?;
                self.turn_back(Turn::U)?;
            },
            MoveNotation::u2 => {
                self.turn(Turn::U)?;
                self.turn_back(Turn::E)?;
                self.turn(Turn::U)?;
                self.turn_back(Turn::E)?;
            },
            MoveNotation::L => {
                self.turn(Turn::L)?;
            },
            MoveNotation::Lp => {
                self.turn_back(Turn::L)?;
            },
            MoveNotation::L2 => {
                self.turn(Turn::L)?;
                self.turn(Turn::L)?;
            },
            MoveNotation::l => {
                self.turn(Turn::L)?;
                self.turn(Turn::M)?;
            },
            MoveNotation::lp => {
                self.turn_back(Turn::M)?;
                self.turn_back(Turn::L)?;
            },
            MoveNotation::l2 => {
                self.turn(Turn::L)?;
                self.turn(Turn::M)?;
                self.turn(Turn::L)?;
                self.turn(Turn::M)?;
            },
            MoveNotation::D => {
                self.turn(Turn::D)?;
            },
            MoveNotation::Dp => {
                self.turn_back(Turn::D)?;
            },
            MoveNotation::D2 => {
                self.turn(Turn::D)?;
                self.turn(Turn::D)?;
            },
            MoveNotation::d => {
                self.turn(Turn::D)?;
                self.turn(Turn::E)?;
            },
            MoveNotation::dp => {
                self.turn_back(Turn::E)?;
                self.turn_back(Turn::D)?;
            },
            MoveNotation::d2 => {
                self.turn(Turn::D)?;
                self.turn(Turn::E)?;
                self.turn(Turn::D)?;
                self.turn(Turn::E)?;
            },
            MoveNotation::F => {
                self.turn(Turn::F)?;
            },
            MoveNotation::Fp => {
                self.turn_back(Turn::F)?;
            },
            MoveNotation::F2 => {
                self.turn(Turn::F)?;
                self.turn(Turn::F)?;
            },
            MoveNotation::f => {
                self.turn(Turn::F)?;
                self.turn(Turn::S)?;
            },
            MoveNotation::fp => {
                self.turn_back(Turn::S)?;
                self.turn_back(Turn::F)?;
            },
            MoveNotation::f2 => {
                self.turn(Turn::F)?;
                self.turn(Turn::S)?;
                self.turn(Turn::F)?;
                self.turn(Turn::S)?;
            },
            MoveNotation::B => {
                self.turn(Turn::B)?;
            },
            MoveNotation::Bp => {
                self.turn_back(Turn::B)?;
            },
            MoveNotation::B2 => {
                self.turn(Turn::B)?;
                self.turn(Turn::B)?;
            },
            MoveNotation::b => {
                self.turn(Turn::B)?;
                self.turn_back(Turn::S)?;
            },
            MoveNotation::bp => {
                self.turn(Turn::S)?;
                self.turn_back(Turn::B)?;
            },
            MoveNotation::b2 => {
                self.turn(Turn::B)?;
                self.turn_back(Turn::S)?;
                self.turn(Turn::B)?;
                self.turn_back(Turn::S)?;
            },
            MoveNotation::M => {
                self.turn(Turn::M)?;
            },
            MoveNotation::Mp => {
                self.turn_back(Turn::M)?;
            },
            MoveNotation::M2 => {
                self.turn(Turn::M)?;
                self.turn(Turn::M)?;
            },
            MoveNotation::E => {
                self.turn(Turn::E)?;
            },
            MoveNotation::Ep => {
                self.turn_back(Turn::E)?;
            },
            MoveNotation::E2 => {
                self.turn(Turn::E)?;
                self.turn(Turn::E)?;
            },
            MoveNotation::S => {
                self.turn(Turn::S)?;
            },
            MoveNotation::Sp => {
                self.turn_back(Turn::S)?;
            },
            MoveNotation::S2 => {
                self.turn(Turn::S)?;
                self.turn(Turn::S)?;
            },
            MoveNotation::x => {
                self.turn(Turn::R)?;
                self.turn_back(Turn::M)?;
                self.turn_back(Turn::L)?;
            },
            MoveNotation::xp => {
                self.turn(Turn::L)?;
                self.turn(Turn::M)?;
                self.turn_back(Turn::R)?;
            },
            MoveNotation::x2 => {
                self.turn(Turn::R)?;
                self.turn_back(Turn::M)?;
                self.turn_back(Turn::L)?;
                self.turn(Turn::R)?;
                self.turn_back(Turn::M)?;
                self.turn_back(Turn::L)?;
            },
            MoveNotation::y => {
                self.turn(Turn::U)?;
                self.turn_back(Turn::E)?;
                self.turn_back(Turn::D)?;
            },
            MoveNotation::yp => {
                self.turn(Turn::D)?;
                self.turn(Turn::E)?;
                self.turn_back(Turn::U)?;
            },
            MoveNotation::y2 => {
                self.turn(Turn::U)?;
                self.turn_back(Turn::E)?;
                self.turn_back(Turn::D)?;
                self.turn(Turn::U)?;
                self.turn_back(Turn::E)?;
                self.turn_back(Turn::D)?;
            },
            MoveNotation::z => {
                self.turn(Turn::F)?;
                self.turn(Turn::S)?;
                self.turn_back(Turn::B)?;
            },
            MoveNotation::zp => {
                self.turn(Turn::B)?;
                self.turn_back(Turn::S)?;
                self.turn_back(Turn::F)?;
            },
            MoveNotation::z2 => {
                self.turn(Turn::F)?;
                self.turn(Turn::S)?;
                self.turn_back(Turn::B)?;
                self.turn(Turn::F)?;
                self.turn(Turn::S)?;
                self.turn_back(Turn::B)?;
            },
        }
        Ok(())
    }

    /// Applies a sequence of moves, first to last.
    pub fn apply_moves(&mut self, ms: &[MoveNotation]) -> (res: Result<(), CubeError>)
        ensures
            res == Ok::<(), CubeError>(()),
            final(self)@ == old(self)@.moved_all(ms@),
    {
        let mut i: usize = 0;
        while i < ms.len()
            invariant
                i <= ms.len(),
                self@ == old(self)@.moved_all(ms@.take(i as int)),
            decreases ms.len() - i,
        {
            self.apply_move(ms[i])?;
            proof {
                assert(ms@.take(i + 1).drop_last() =~= ms@.take(i as int));
            }
            i += 1;
        }
        proof {
            assert(ms@.take(i as int) =~= ms@);
        }
        Ok(())
    }
}

} // verus!
