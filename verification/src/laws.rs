//! The algebraic laws of the moves: every token has an inverse token, and a
//! half turn is two quarter turns.

use vstd::prelude::*;
use crate::cube::CubeView;
use crate::moves::{MoveNotation, Turn};

verus! {

/// A counter-clockwise quarter turn of a layer undoes the clockwise one, and
/// the clockwise one the counter-clockwise one, from any state.
pub proof fn lemma_quarter_round_trip(c: CubeView, t: Turn)
    requires
        c.wf(),
    ensures
        c.quarter(t).wf(),
        c.quarter_back(t).wf(),
        c.quarter(t).quarter_back(t) == c,
        c.quarter_back(t).quarter(t) == c,
{
    assert(c.quarter(t).quarter_back(t).corners =~= c.corners);
    assert(c.quarter(t).quarter_back(t).edges =~= c.edges);
    assert(c.quarter_back(t).quarter(t).corners =~= c.corners);
    assert(c.quarter_back(t).quarter(t).edges =~= c.edges);
}

/// Two clockwise quarter turns of a layer give the same state as two
/// counter-clockwise ones.
pub proof fn lemma_half_turn_either_way(c: CubeView, t: Turn)
    requires
        c.wf(),
    ensures
        c.quarter(t).quarter(t) == c.quarter_back(t).quarter_back(t),
{
    assert(c.quarter(t).quarter(t).corners =~= c.quarter_back(t).quarter_back(t).corners);
    assert(c.quarter(t).quarter(t).edges =~= c.quarter_back(t).quarter_back(t).edges);
}

/// Four clockwise quarter turns of one layer bring every state back.
pub proof fn lemma_four_quarters(c: CubeView, t: Turn)
    requires
        c.wf(),
    ensures
        c.quarter(t).quarter(t).quarter(t).quarter(t) == c,
{
    let h = c.quarter(t).quarter(t);
    lemma_round_trips_everywhere(t);
    lemma_half_turn_either_way(c, t);
    assert(h.quarter(t).quarter(t) == c.quarter_back(t).quarter_back(t).quarter(t).quarter(t));
}

/// The round trip of a quarter turn, stated of all states at once.
proof fn lemma_round_trips_everywhere(t: Turn)
    ensures
        forall|c: CubeView| c.wf() ==> (#[trigger] c.quarter(t)).wf() && c.quarter(t).quarter_back(t) == c,
        forall|c: CubeView| c.wf() ==> (#[trigger] c.quarter_back(t)).wf() && c.quarter_back(t).quarter(t) == c,
{
    assert forall|c: CubeView| c.wf() implies (#[trigger] c.quarter(t)).wf() && c.quarter(t).quarter_back(t) == c by {
        lemma_quarter_round_trip(c, t);
    }
    assert forall|c: CubeView| c.wf() implies (#[trigger] c.quarter_back(t)).wf() && c.quarter_back(t).quarter(t) == c by {
        lemma_quarter_round_trip(c, t);
    }
}


/// A half turn of several parallel layers, done twice, brings every state back.
#[verifier::rlimit(100)]
#[verifier::spinoff_prover]
proof fn lemma_compound_half_turn_r2(c: CubeView)
    requires
        c.wf(),
    ensures
        c.moved(MoveNotation::r2).wf(),
        c.moved(MoveNotation::r2).moved(MoveNotation::r2) == c,
{
    let d = c.moved(MoveNotation::r2).moved(MoveNotation::r2);
    assert(d.corners =~= c.corners);
    assert(d.edges =~= c.edges);
}


/// A half turn of several parallel layers, done twice, brings every state back.
#[verifier::rlimit(100)]
#[verifier::spinoff_prover]
proof fn lemma_compound_half_turn_u2(c: CubeView)
    requires
        c.wf(),
    ensures
        c.moved(MoveNotation::u2).wf(),
        c.moved(MoveNotation::u2).moved(MoveNotation::u2) == c,
{
    let d = c.moved(MoveNotation::u2).moved(MoveNotation::u2);
    assert(d.corners =~= c.corners);
    assert(d.edges =~= c.edges);
}


/// A half turn of several parallel layers, done twice, brings every state back.
#[verifier::rlimit(100)]
#[verifier::spinoff_prover]
proof fn lemma_compound_half_turn_l2(c: CubeView)
    requires
        c.wf(),
    ensures
        c.moved(MoveNotation::l2).wf(),
        c.moved(MoveNotation::l2).moved(MoveNotation::l2) == c,
{
    let d = c.moved(MoveNotation::l2).moved(MoveNotation::l2);
    assert(d.corners =~= c.corners);
    assert(d.edges =~= c.edges);
}


/// A half turn of several parallel layers, done twice, brings every state back.
#[verifier::rlimit(100)]
#[verifier::spinoff_prover]
proof fn lemma_compound_half_turn_d2(c: CubeView)
    requires
        c.wf(),
    ensures
        c.moved(MoveNotation::d2).wf(),
        c.moved(MoveNotation::d2).moved(MoveNotation::d2) == c,
{
    let d = c.moved(MoveNotation::d2).moved(MoveNotation::d2);
    assert(d.corners =~= c.corners);
    assert(d.edges =~= c.edges);
}


/// A half turn of several parallel layers, done twice, brings every state back.
#[verifier::rlimit(100)]
#[verifier::spinoff_prover]
proof fn lemma_compound_half_turn_f2(c: CubeView)
    requires
        c.wf(),
    ensures
        c.moved(MoveNotation::f2).wf(),
        c.moved(MoveNotation::f2).moved(MoveNotation::f2) == c,
{
    let d = c.moved(MoveNotation::f2).moved(MoveNotation::f2);
    assert(d.corners =~= c.corners);
    assert(d.edges =~= c.edges);
}


/// A half turn of several parallel layers, done twice, brings every state back.
#[verifier::rlimit(100)]
#[verifier::spinoff_prover]
proof fn lemma_compound_half_turn_b2(c: CubeView)
    requires
        c.wf(),
    ensures
        c.moved(MoveNotation::b2).wf(),
        c.moved(MoveNotation::b2).moved(MoveNotation::b2) == c,
{
    let d = c.moved(MoveNotation::b2).moved(MoveNotation::b2);
    assert(d.corners =~= c.corners);
    assert(d.edges =~= c.edges);
}


/// A half turn of several parallel layers, done twice, brings every state back.
#[verifier::rlimit(100)]
#[verifier::spinoff_prover]
proof fn lemma_compound_half_turn_x2(c: CubeView)
    requires
        c.wf(),
    ensures
        c.moved(MoveNotation::x2).wf(),
        c.moved(MoveNotation::x2).moved(MoveNotation::x2) == c,
{
    let d = c.moved(MoveNotation::x2).moved(MoveNotation::x2);
    assert(d.corners =~= c.corners);
    assert(d.edges =~= c.edges);
}


/// A half turn of several parallel layers, done twice, brings every state back.
#[verifier::rlimit(100)]
#[verifier::spinoff_prover]
proof fn lemma_compound_half_turn_y2(c: CubeView)
    requires
        c.wf(),
    ensures
        c.moved(MoveNotation::y2).wf(),
        c.moved(MoveNotation::y2).moved(MoveNotation::y2) == c,
{
    let d = c.moved(MoveNotation::y2).moved(MoveNotation::y2);
    assert(d.corners =~= c.corners);
    assert(d.edges =~= c.edges);
}


/// A half turn of several parallel layers, done twice, brings every state back.
#[verifier::rlimit(100)]
#[verifier::spinoff_prover]
proof fn lemma_compound_half_turn_z2(c: CubeView)
    requires
        c.wf(),
    ensures
        c.moved(MoveNotation::z2).wf(),
        c.moved(MoveNotation::z2).moved(MoveNotation::z2) == c,
{
    let d = c.moved(MoveNotation::z2).moved(MoveNotation::z2);
    assert(d.corners =~= c.corners);
    assert(d.edges =~= c.edges);
}

/// Every move followed by its inverse token leaves every state as it was.
pub proof fn lemma_inverse_round_trip(c: CubeView, m: MoveNotation)
    requires
        c.wf(),
    ensures
        c.moved(m).wf(),
        c.moved(m).moved(m.inverted()) == c,
{
    match m {
        MoveNotation::R => {
            lemma_round_trips_everywhere(Turn::R);
        },
        MoveNotation::Rp => {
            lemma_round_trips_everywhere(Turn::R);
        },
        MoveNotation::R2 => {
            lemma_round_trips_everywhere(Turn::R);
            lemma_four_quarters(c, Turn::R);
        },
        MoveNotation::r => {
            lemma_round_trips_everywhere(Turn::M);
            lemma_round_trips_everywhere(Turn::R);
        },
        MoveNotation::rp => {
            lemma_round_trips_everywhere(Turn::M);
            lemma_round_trips_everywhere(Turn::R);
        },
        MoveNotation::r2 => {
            lemma_round_trips_everywhere(Turn::M);
            lemma_round_trips_everywhere(Turn::R);
            lemma_compound_half_turn_r2(c);
        },
        MoveNotation::U => {
            lemma_round_trips_everywhere(Turn::U);
        },
        MoveNotation::Up => {
            lemma_round_trips_everywhere(Turn::U);
        },
        MoveNotation::U2 => {
            lemma_round_trips_everywhere(Turn::U);
            lemma_four_quarters(c, Turn::U);
        },
        MoveNotation::u => {
            lemma_round_trips_everywhere(Turn::E);
            lemma_round_trips_everywhere(Turn::U);
        },
        MoveNotation::up => {
            lemma_round_trips_everywhere(Turn::E);
            lemma_round_trips_everywhere(Turn::U);
        },
        MoveNotation::u2 => {
            lemma_round_trips_everywhere(Turn::E);
            lemma_round_trips_everywhere(Turn::U);
            lemma_compound_half_turn_u2(c);
        },
        MoveNotation::L => {
            lemma_round_trips_everywhere(Turn::L);
        },
        MoveNotation::Lp => {
            lemma_round_trips_everywhere(Turn::L);
        },
        MoveNotation::L2 => {
            lemma_round_trips_everywhere(Turn::L);
            lemma_four_quarters(c, Turn::L);
        },
        MoveNotation::l => {
            lemma_round_trips_everywhere(Turn::L);
            lemma_round_trips_everywhere(Turn::M);
        },
        MoveNotation::lp => {
            lemma_round_trips_everywhere(Turn::L);
            lemma_round_trips_everywhere(Turn::M);
        },
        MoveNotation::l2 => {
            lemma_round_trips_everywhere(Turn::L);
            lemma_round_trips_everywhere(Turn::M);
            lemma_compound_half_turn_l2(c);
        },
        MoveNotation::D => {
            lemma_round_trips_everywhere(Turn::D);
        },
        MoveNotation::Dp => {
            lemma_round_trips_everywhere(Turn::D);
        },
        MoveNotation::D2 => {
            lemma_round_trips_everywhere(Turn::D);
            lemma_four_quarters(c, Turn::D);
        },
        MoveNotation::d => {
            lemma_round_trips_everywhere(Turn::D);
            lemma_round_trips_everywhere(Turn::E);
        },
        MoveNotation::dp => {
            lemma_round_trips_everywhere(Turn::D);
            lemma_round_trips_everywhere(Turn::E);
        },
        MoveNotation::d2 => {
            lemma_round_trips_everywhere(Turn::D);
            lemma_round_trips_everywhere(Turn::E);
            lemma_compound_half_turn_d2(c);
        },
        MoveNotation::F => {
            lemma_round_trips_everywhere(Turn::F);
        },
        MoveNotation::Fp => {
            lemma_round_trips_everywhere(Turn::F);
        },
        MoveNotation::F2 => {
            lemma_round_trips_everywhere(Turn::F);
            lemma_four_quarters(c, Turn::F);
        },
        MoveNotation::f => {
            lemma_round_trips_everywhere(Turn::F);
            lemma_round_trips_everywhere(Turn::S);
        },
        MoveNotation::fp => {
            lemma_round_trips_everywhere(Turn::F);
            lemma_round_trips_everywhere(Turn::S);
        },
        MoveNotation::f2 => {
            lemma_round_trips_everywhere(Turn::F);
            lemma_round_trips_everywhere(Turn::S);
            lemma_compound_half_turn_f2(c);
        },
        MoveNotation::B => {
            lemma_round_trips_everywhere(Turn::B);
        },
        MoveNotation::Bp => {
            lemma_round_trips_everywhere(Turn::B);
        },
        MoveNotation::B2 => {
            lemma_round_trips_everywhere(Turn::B);
            lemma_four_quarters(c, Turn::B);
        },
        MoveNotation::b => {
            lemma_round_trips_everywhere(Turn::B);
            lemma_round_trips_everywhere(Turn::S);
        },
        MoveNotation::bp => {
            lemma_round_trips_everywhere(Turn::B);
            lemma_round_trips_everywhere(Turn::S);
        },
        MoveNotation::b2 => {
            lemma_round_trips_everywhere(Turn::B);
            lemma_round_trips_everywhere(Turn::S);
            lemma_compound_half_turn_b2(c);
        },
        MoveNotation::M => {
            lemma_round_trips_everywhere(Turn::M);
        },
        MoveNotation::Mp => {
            lemma_round_trips_everywhere(Turn::M);
        },
        MoveNotation::M2 => {
            lemma_round_trips_everywhere(Turn::M);
            lemma_four_quarters(c, Turn::M);
        },
        MoveNotation::E => {
            lemma_round_trips_everywhere(Turn::E);
        },
        MoveNotation::Ep => {
            lemma_round_trips_everywhere(Turn::E);
        },
        MoveNotation::E2 => {
            lemma_round_trips_everywhere(Turn::E);
            lemma_four_quarters(c, Turn::E);
        },
        MoveNotation::S => {
            lemma_round_trips_everywhere(Turn::S);
        },
        MoveNotation::Sp => {
            lemma_round_trips_everywhere(Turn::S);
        },
        MoveNotation::S2 => {
            lemma_round_trips_everywhere(Turn::S);
            lemma_four_quarters(c, Turn::S);
        },
        MoveNotation::x => {
            lemma_round_trips_everywhere(Turn::L);
            lemma_round_trips_everywhere(Turn::M);
            lemma_round_trips_everywhere(Turn::R);
        },
        MoveNotation::xp => {
            lemma_round_trips_everywhere(Turn::L);
            lemma_round_trips_everywhere(Turn::M);
            lemma_round_trips_everywhere(Turn::R);
        },
        MoveNotation::x2 => {
            lemma_round_trips_everywhere(Turn::L);
            lemma_round_trips_everywhere(Turn::M);
            lemma_round_trips_everywhere(Turn::R);
            lemma_compound_half_turn_x2(c);
        },
        MoveNotation::y => {
            lemma_round_trips_everywhere(Turn::D);
            lemma_round_trips_everywhere(Turn::E);
            lemma_round_trips_everywhere(Turn::U);
        },
        MoveNotation::yp => {
            lemma_round_trips_everywhere(Turn::D);
            lemma_round_trips_everywhere(Turn::E);
            lemma_round_trips_everywhere(Turn::U);
        },
        MoveNotation::y2 => {
            lemma_round_trips_everywhere(Turn::D);
            lemma_round_trips_everywhere(Turn::E);
            lemma_round_trips_everywhere(Turn::U);
            lemma_compound_half_turn_y2(c);
        },
        MoveNotation::z => {
            lemma_round_trips_everywhere(Turn::B);
            lemma_round_trips_everywhere(Turn::F);
            lemma_round_trips_everywhere(Turn::S);
        },
        MoveNotation::zp => {
            lemma_round_trips_everywhere(Turn::B);
            lemma_round_trips_everywhere(Turn::F);
            lemma_round_trips_everywhere(Turn::S);
        },
        MoveNotation::z2 => {
            lemma_round_trips_everywhere(Turn::B);
            lemma_round_trips_everywhere(Turn::F);
            lemma_round_trips_everywhere(Turn::S);
            lemma_compound_half_turn_z2(c);
        },
    }
}

/// The inverse of the inverse of a token is the token.
pub proof fn lemma_inverse_twice(m: MoveNotation)
    ensures
        m.inverted().inverted() == m,
{
}

/// A half turn is the clockwise quarter turn of the same kind applied twice,
/// from any state: for each face, each inner layer, each wide turn and each
/// turn of the whole cube.
pub proof fn lemma_double_is_twice(c: CubeView, m: MoveNotation)
    requires
        m.doubled() is Some,
    ensures
        c.moved(m.doubled().unwrap()) == c.moved(m).moved(m),
{
}

} // verus!
