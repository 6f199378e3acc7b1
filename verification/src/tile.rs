//! What a tile allows and the edges characters cross between tiles.

use vstd::prelude::*;

use crate::math::UVec2;

verus! {

/// How a tile can be entered; later variants ask for more.
#[derive(PartialEq, Eq, Debug, Clone, Copy, Hash, Structural)]
pub enum Passability {
    Always,
    Never,
    Bike,
    Surf,
    Waterfall,
}

impl Passability {
    /// How demanding a passability is: `Always` < `Bike` < `Surf` < `Waterfall` < `Never`.
    pub open spec fn rank(self) -> int {
        match self {
            Passability::Always => 0,
            Passability::Bike => 1,
            Passability::Surf => 2,
            Passability::Waterfall => 3,
            Passability::Never => 4,
        }
    }

    /// The more demanding of two passabilities.
    pub open spec fn combine(self, rhs: Passability) -> Passability {
        if self.rank() >= rhs.rank() {
            self
        } else {
            rhs
        }
    }
}

impl Default for Passability {
    fn default() -> (p: Passability)
        ensures
            p == Passability::Always,
    {
        Passability::Always
    }
}

impl core::ops::BitAnd for Passability {
    type Output = Passability;

    fn bitand(self, rhs: Passability) -> (r: Passability)
        ensures
            r == self.combine(rhs),
    {
        match self {
            Passability::Always => rhs,
            Passability::Bike => match rhs {
                Passability::Always | Passability::Bike => Passability::Bike,
                other => other,
            },
            Passability::Surf => match rhs {
                Passability::Always | Passability::Bike | Passability::Surf => Passability::Surf,
                other => other,
            },
            Passability::Waterfall => match rhs {
                Passability::Always
                | Passability::Bike
                | Passability::Surf
                | Passability::Waterfall => Passability::Waterfall,
                other => other,
            },
            Passability::Never => Passability::Never,
        }
    }
}

impl vstd::std_specs::ops::BitAndSpecImpl for Passability {
    open spec fn obeys_bitand_spec() -> bool {
        true
    }

    open spec fn bitand_req(self, rhs: Passability) -> bool {
        true
    }

    open spec fn bitand_spec(self, rhs: Passability) -> Passability {
        self.combine(rhs)
    }
}

impl core::ops::BitAndAssign for Passability {
    fn bitand_assign(&mut self, rhs: Passability)
        ensures
            *final(self) == old(self).combine(rhs),
    {
        *self = *self & rhs;
    }
}

/// Passabilities from the least to the most demanding.
pub open spec fn demand_order() -> Seq<Passability> {
    seq![
        Passability::Always,
        Passability::Bike,
        Passability::Surf,
        Passability::Waterfall,
        Passability::Never,
    ]
}

/// Combining two passabilities, in either order, gives the more demanding one:
/// `Always < Bike < Surf < Waterfall < Never`; so `Surf & Waterfall` is `Waterfall`.
pub proof fn lemma_combine_more_demanding(i: int, j: int)
    requires
        0 <= i <= j < 5,
    ensures
        demand_order()[i].combine(demand_order()[j]) == demand_order()[j],
        demand_order()[j].combine(demand_order()[i]) == demand_order()[j],
{
}

/// Every passability stands in the demand order.
pub proof fn lemma_demand_order_complete(a: Passability)
    ensures
        demand_order().contains(a),
{
    let k: int = match a {
        Passability::Always => 0,
        Passability::Bike => 1,
        Passability::Surf => 2,
        Passability::Waterfall => 3,
        Passability::Never => 4,
    };
    assert(demand_order()[k] == a);
}

/// Combining passabilities does not depend on the order of the operands.
pub proof fn lemma_combine_commutative(a: Passability, b: Passability)
    ensures
        a.combine(b) == b.combine(a),
{
}

/// Combining passabilities can be regrouped freely.
pub proof fn lemma_combine_associative(a: Passability, b: Passability, c: Passability)
    ensures
        a.combine(b).combine(c) == a.combine(b.combine(c)),
{
}

/// Combining a passability with itself changes nothing.
pub proof fn lemma_combine_idempotent(a: Passability)
    ensures
        a.combine(a) == a,
{
}

/// `Always` is neutral and `Never` is absorbing.
pub proof fn lemma_combine_always_never(a: Passability)
    ensures
        Passability::Always.combine(a) == a,
        a.combine(Passability::Always) == a,
        Passability::Never.combine(a) == Passability::Never,
        a.combine(Passability::Never) == Passability::Never,
{
}

/// A directed step between two adjacent tiles.
#[derive(Hash, PartialEq, Eq, Clone, Copy, Debug, Structural)]
pub struct TileEdge {
    pub from: UVec2,
    pub to: UVec2,
}

impl TileEdge {
    /// The same edge walked the other way.
    pub open spec fn reversed(self) -> TileEdge {
        TileEdge { from: self.to, to: self.from }
    }

    /// The same edge walked the other way.
    pub fn reverse(&self) -> (e: TileEdge)
        ensures
            e == self.reversed(),
    {
        TileEdge { from: self.to, to: self.from }
    }
}

impl From<(UVec2, UVec2)> for TileEdge {
    fn from(pair: (UVec2, UVec2)) -> (e: TileEdge) {
        TileEdge { from: pair.0, to: pair.1 }
    }
}

impl vstd::std_specs::convert::FromSpecImpl<(UVec2, UVec2)> for TileEdge {
    open spec fn obeys_from_spec() -> bool {
        true
    }

    open spec fn from_spec(pair: (UVec2, UVec2)) -> TileEdge {
        TileEdge { from: pair.0, to: pair.1 }
    }
}

/// Reversing an edge twice gives the edge back.
pub proof fn lemma_reverse_involutive(e: TileEdge)
    ensures
        e.reversed().reversed() == e,
{
}

/// What a character needs to enter a tile, and whether someone already stands on it.
#[derive(Clone, Copy, Debug, PartialEq, Eq, Structural)]
pub struct Tile {
    pub passability: Passability,
    pub blocked: bool,
}

impl Tile {
    /// A walking character may step onto this tile.
    pub open spec fn walkable(self) -> bool {
        self.passability == Passability::Always && !self.blocked
    }
}

} // verus!
