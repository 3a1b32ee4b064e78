//! The thirteen ranks and their ace-high order.

use std::cmp::Ordering;
use vstd::prelude::*;
use vstd::std_specs::cmp::PartialOrdIs;
use vstd::std_specs::cmp::PartialOrdSpec;
use vstd::string::StringExecFns;

verus! {

/// One of the thirteen ranks, from the two up to the ace.
#[derive(Debug, PartialEq, Eq, Ord, Copy, Clone, Structural)]
pub enum Rank {
    R2,
    R3,
    R4,
    R5,
    R6,
    R7,
    R8,
    R9,
    R10,
    J,
    Q,
    K,
    A,
}

impl Rank {
    /// The place of the rank in the ascending sequence: 0 for the two, 12 for
    /// the ace.
    pub open spec fn index(self) -> nat {
        match self {
            Rank::R2 => 0,
            Rank::R3 => 1,
            Rank::R4 => 2,
            Rank::R5 => 3,
            Rank::R6 => 4,
            Rank::R7 => 5,
            Rank::R8 => 6,
            Rank::R9 => 7,
            Rank::R10 => 8,
            Rank::J => 9,
            Rank::Q => 10,
            Rank::K => 11,
            Rank::A => 12,
        }
    }

    /// All ranks in ascending order.
    pub open spec fn ascending() -> Seq<Rank> {
        seq![
            Rank::R2,
            Rank::R3,
            Rank::R4,
            Rank::R5,
            Rank::R6,
            Rank::R7,
            Rank::R8,
            Rank::R9,
            Rank::R10,
            Rank::J,
            Rank::Q,
            Rank::K,
            Rank::A,
        ]
    }

    /// The higher of two ranks.
    pub open spec fn higher(self, other: Rank) -> Rank {
        if self.index() < other.index() {
            other
        } else {
            self
        }
    }

    /// The short label of the rank: its numeral, or one letter for a face
    /// card or the ace.
    pub open spec fn label(self) -> Seq<char> {
        match self {
            Rank::R2 => seq!['2'],
            Rank::R3 => seq!['3'],
            Rank::R4 => seq!['4'],
            Rank::R5 => seq!['5'],
            Rank::R6 => seq!['6'],
            Rank::R7 => seq!['7'],
            Rank::R8 => seq!['8'],
            Rank::R9 => seq!['9'],
            Rank::R10 => seq!['1', '0'],
            Rank::J => seq!['J'],
            Rank::Q => seq!['Q'],
            Rank::K => seq!['K'],
            Rank::A => seq!['A'],
        }
    }

    /// The place of the rank in the ascending sequence.
    pub fn ordinal(&self) -> (n: u8)
        ensures
            n == self.index(),
    {
        match self {
            Rank::R2 => 0,
            Rank::R3 => 1,
            Rank::R4 => 2,
            Rank::R5 => 3,
            Rank::R6 => 4,
            Rank::R7 => 5,
            Rank::R8 => 6,
            Rank::R9 => 7,
            Rank::R10 => 8,
            Rank::J => 9,
            Rank::Q => 10,
            Rank::K => 11,
            Rank::A => 12,
        }
    }

    /// Renders the rank as its label.
    pub fn render(&self) -> (s: String)
        ensures
            s@ == self.label(),
    {
        proof {
            reveal_strlit("2");
            reveal_strlit("3");
            reveal_strlit("4");
            reveal_strlit("5");
            reveal_strlit("6");
            reveal_strlit("7");
            reveal_strlit("8");
            reveal_strlit("9");
            reveal_strlit("10");
            reveal_strlit("J");
            reveal_strlit("Q");
            reveal_strlit("K");
            reveal_strlit("A");
        }
        let s = match self {
            Rank::A => String::from_str("A"),
            Rank::R2 => String::from_str("2"),
            Rank::R3 => String::from_str("3"),
            Rank::R4 => String::from_str("4"),
            Rank::R5 => String::from_str("5"),
            Rank::R6 => String::from_str("6"),
            Rank::R7 => String::from_str("7"),
            Rank::R8 => String::from_str("8"),
            Rank::R9 => String::from_str("9"),
            Rank::R10 => String::from_str("10"),
            Rank::J => String::from_str("J"),
            Rank::Q => String::from_str("Q"),
            Rank::K => String::from_str("K"),
        };
        assert(s@ =~= self.label());
        s
    }
}

impl PartialOrd for Rank {
    fn partial_cmp(&self, other: &Rank) -> (o: Option<Ordering>) {
        let a: u8 = self.ordinal();
        let b: u8 = other.ordinal();
        if a < b {
            Some(Ordering::Less)
        } else if a == b {
            Some(Ordering::Equal)
        } else {
            Some(Ordering::Greater)
        }
    }
}

impl vstd::std_specs::cmp::PartialOrdSpecImpl for Rank {
    open spec fn obeys_partial_cmp_spec() -> bool {
        true
    }

    open spec fn partial_cmp_spec(&self, other: &Rank) -> Option<Ordering> {
        if self.index() < other.index() {
            Some(Ordering::Less)
        } else if self.index() == other.index() {
            Some(Ordering::Equal)
        } else {
            Some(Ordering::Greater)
        }
    }
}

/// A rank is found again from its place in the ascending sequence, so two
/// ranks at the same place are the same rank.
pub proof fn lemma_rank_index_identifies(a: Rank, b: Rank)
    ensures
        a.index() < 13,
        Rank::ascending().len() == 13,
        Rank::ascending()[a.index() as int] == a,
        a.index() == b.index() <==> a == b,
{
}

/// Along the ascending sequence every rank is below each one that comes
/// after it, its immediate successor included.
pub proof fn lemma_ranks_ascend(i: int, j: int)
    requires
        0 <= i < j < 13,
    ensures
        Rank::ascending()[i].is_lt(&Rank::ascending()[j]),
        Rank::ascending()[i].index() == i,
{
}

/// No rank is below itself.
pub proof fn lemma_rank_lt_irreflexive(a: Rank)
    ensures
        !a.is_lt(&a),
        a.partial_cmp_spec(&a) == Some(Ordering::Equal),
{
}

/// Of two ranks exactly one holds: the first is below the second, they are
/// the same rank, or the second is below the first.
pub proof fn lemma_rank_order_total(a: Rank, b: Rank)
    ensures
        a.is_lt(&b) || a == b || b.is_lt(&a),
        !(a.is_lt(&b) && a == b),
        !(a.is_lt(&b) && b.is_lt(&a)),
        !(a == b && b.is_lt(&a)),
        a.is_lt(&b) <==> b.is_gt(&a),
        a.is_le(&b) <==> a.is_lt(&b) || a == b,
{
}

/// Below is transitive.
pub proof fn lemma_rank_lt_transitive(a: Rank, b: Rank, c: Rank)
    requires
        a.is_lt(&b),
        b.is_lt(&c),
    ensures
        a.is_lt(&c),
{
}

} // verus!
