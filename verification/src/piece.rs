//! Orientations, slot names and the two classes of piece.

use vstd::prelude::*;

verus! {

/// The sense of a twist applied to a piece in place.
#[derive(Debug, Copy, Clone, PartialEq, Eq, Structural)]
pub enum RotDirection {
    Right,
    Left,
}

/// Orientation of an edge within its slot.
#[derive(Debug, Copy, Clone, PartialEq, Eq, Structural)]
pub enum EdgeRot {
    Correct,
    Incorrect,
}

/// Orientation of a corner within its slot, named by the axis that the
/// piece's up/down sticker faces.
#[derive(Debug, Copy, Clone, PartialEq, Eq, Structural)]
pub enum CornerRot {
    YFacing,
    XFacing,
    ZFacing,
}

/// The twelve edge slots. In order: up-right, up-front, up-left, up-back,
/// down-right, down-front, down-left, down-back, front-right, front-left,
/// back-left, back-right.
#[derive(Debug, Copy, Clone, PartialEq, Eq, Structural)]
pub enum EdgeNotation {
    I, J, K, L, M, N, O, P, Q, R, S, T,
}

/// The eight corner slots. In order: up-right-front, up-front-left,
/// up-left-back, up-back-right, down-front-right, down-left-front,
/// down-back-left, down-right-back.
#[derive(Debug, Copy, Clone, PartialEq, Eq, Structural)]
pub enum CornerNotation {
    A, B, C, D, E, F, G, H,
}

/// A slot name that stands for a dense array index.
pub trait PieceNotation {
    /// The index as a mathematical integer.
    spec fn index_spec(&self) -> int;

    /// The position of this slot in the cube's array for its class.
    fn index(&self) -> (i: usize)
        ensures
            i == self.index_spec(),
    ;
}

impl EdgeRot {
    /// 0 for a correct edge, 1 for a flipped one.
    pub open spec fn value(self) -> int {
        match self {
            EdgeRot::Correct => 0,
            EdgeRot::Incorrect => 1,
        }
    }

    /// The other orientation.
    pub open spec fn flipped(self) -> EdgeRot {
        match self {
            EdgeRot::Correct => EdgeRot::Incorrect,
            EdgeRot::Incorrect => EdgeRot::Correct,
        }
    }
}

impl CornerRot {
    /// 0, 1, 2 for Y-, X-, Z-facing: the number of right twists away from Y.
    pub open spec fn value(self) -> int {
        match self {
            CornerRot::YFacing => 0,
            CornerRot::XFacing => 1,
            CornerRot::ZFacing => 2,
        }
    }

    /// The orientation after one twist: Y -> X -> Z -> Y to the right, the
    /// reverse to the left.
    pub open spec fn turned(self, dir: RotDirection) -> CornerRot {
        match (self, dir) {
            (CornerRot::YFacing, RotDirection::Right) => CornerRot::XFacing,
            (CornerRot::YFacing, RotDirection::Left) => CornerRot::ZFacing,
            (CornerRot::XFacing, RotDirection::Right) => CornerRot::ZFacing,
            (CornerRot::XFacing, RotDirection::Left) => CornerRot::YFacing,
            (CornerRot::ZFacing, RotDirection::Right) => CornerRot::YFacing,
            (CornerRot::ZFacing, RotDirection::Left) => CornerRot::XFacing,
        }
    }
}

impl RotDirection {
    /// The opposite sense.
    pub open spec fn reversed(self) -> RotDirection {
        match self {
            RotDirection::Right => RotDirection::Left,
            RotDirection::Left => RotDirection::Right,
        }
    }

    /// The opposite sense.
    pub fn reverse(&self) -> (r: RotDirection)
        ensures
            r == self.reversed(),
    {
        match self {
            RotDirection::Right => RotDirection::Left,
            RotDirection::Left => RotDirection::Right,
        }
    }
}

impl EdgeNotation {
    /// All twelve edge slots in index order.
    pub fn variants() -> (v: [EdgeNotation; 12])
        ensures
            forall|i: int| 0 <= i < 12 ==> (#[trigger] v@[i]).index_spec() == i,
    {
        [
            EdgeNotation::I, EdgeNotation::J, EdgeNotation::K, EdgeNotation::L,
            EdgeNotation::M, EdgeNotation::N, EdgeNotation::O, EdgeNotation::P,
            EdgeNotation::Q, EdgeNotation::R, EdgeNotation::S, EdgeNotation::T,
        ]
    }
}

impl PieceNotation for EdgeNotation {
    open spec fn index_spec(&self) -> int {
        match self {
            EdgeNotation::I => 0,
            EdgeNotation::J => 1,
            EdgeNotation::K => 2,
            EdgeNotation::L => 3,
            EdgeNotation::M => 4,
            EdgeNotation::N => 5,
            EdgeNotation::O => 6,
            EdgeNotation::P => 7,
            EdgeNotation::Q => 8,
            EdgeNotation::R => 9,
            EdgeNotation::S => 10,
            EdgeNotation::T => 11,
        }
    }

    fn index(&self) -> (i: usize) {
        match self {
            EdgeNotation::I => 0,
            EdgeNotation::J => 1,
            EdgeNotation::K => 2,
            EdgeNotation::L => 3,
            EdgeNotation::M => 4,
            EdgeNotation::N => 5,
            EdgeNotation::O => 6,
            EdgeNotation::P => 7,
            EdgeNotation::Q => 8,
            EdgeNotation::R => 9,
            EdgeNotation::S => 10,
            EdgeNotation::T => 11,
        }
    }
}

impl CornerNotation {
    /// All eight corner slots in index order.
    pub fn variants() -> (v: [CornerNotation; 8])
        ensures
            forall|i: int| 0 <= i < 8 ==> (#[trigger] v@[i]).index_spec() == i,
    {
        [
            CornerNotation::A, CornerNotation::B, CornerNotation::C, CornerNotation::D,
            CornerNotation::E, CornerNotation::F, CornerNotation::G, CornerNotation::H,
        ]
    }
}

impl PieceNotation for CornerNotation {
    open spec fn index_spec(&self) -> int {
        match self {
            CornerNotation::A => 0,
            CornerNotation::B => 1,
            CornerNotation::C => 2,
            CornerNotation::D => 3,
            CornerNotation::E => 4,
            CornerNotation::F => 5,
            CornerNotation::G => 6,
            CornerNotation::H => 7,
        }
    }

    fn index(&self) -> (i: usize) {
        match self {
            CornerNotation::A => 0,
            CornerNotation::B => 1,
            CornerNotation::C => 2,
            CornerNotation::D => 3,
            CornerNotation::E => 4,
            CornerNotation::F => 5,
            CornerNotation::G => 6,
            CornerNotation::H => 7,
        }
    }
}

/// An edge piece: its orientation and the slot it belongs to when solved.
#[derive(Debug, Copy, Clone, PartialEq, Eq, Structural)]
pub struct Edge(pub EdgeRot, pub EdgeNotation);

/// A corner piece: its orientation and the slot it belongs to when solved.
#[derive(Debug, Copy, Clone, PartialEq, Eq, Structural)]
pub struct Corner(pub CornerRot, pub CornerNotation);

impl Edge {
    /// The edge after a twist: flipped, whatever the direction.
    pub open spec fn rotated(self, dir: RotDirection) -> Edge {
        Edge(self.0.flipped(), self.1)
    }

    /// Twists the edge in place. An edge has two orientations, so either
    /// direction flips it; the home slot is kept.
    pub fn rotate(&self, dir: RotDirection) -> (r: Edge)
        ensures
            r == self.rotated(dir),
    {
        match self.0 {
            EdgeRot::Correct => Edge(EdgeRot::Incorrect, self.1),
            EdgeRot::Incorrect => Edge(EdgeRot::Correct, self.1),
        }
    }
}

impl Corner {
    /// The corner after one twist in the given direction.
    pub open spec fn rotated(self, dir: RotDirection) -> Corner {
        Corner(self.0.turned(dir), self.1)
    }

    /// Twists the corner in place: Y -> X -> Z -> Y to the right, the reverse
    /// to the left; the home slot is kept.
    pub fn rotate(&self, dir: RotDirection) -> (r: Corner)
        ensures
            r == self.rotated(dir),
    {
        match (self.0, dir) {
            (CornerRot::YFacing, RotDirection::Right) => Corner(CornerRot::XFacing, self.1),
            (CornerRot::YFacing, RotDirection::Left) => Corner(CornerRot::ZFacing, self.1),
            (CornerRot::XFacing, RotDirection::Right) => Corner(CornerRot::ZFacing, self.1),
            (CornerRot::XFacing, RotDirection::Left) => Corner(CornerRot::YFacing, self.1),
            (CornerRot::ZFacing, RotDirection::Right) => Corner(CornerRot::YFacing, self.1),
            (CornerRot::ZFacing, RotDirection::Left) => Corner(CornerRot::XFacing, self.1),
        }
    }
}

} // verus!
