//! A playing card: a suit and a rank.

use crate::rank::Rank;
use crate::suit::Suit;
use vstd::prelude::*;
use vstd::string::StringExecFns;

verus! {

/// A card, written suit first and rank second. Any suit goes with any rank.
#[derive(Debug, Copy, Clone)]
pub struct Card(pub Suit, pub Rank);

impl Card {
    /// The suit of the card.
    pub open spec fn suit(self) -> Suit {
        self.0
    }

    /// The rank of the card.
    pub open spec fn rank(self) -> Rank {
        self.1
    }

    /// The text of the card: the label of its rank, then the glyph of its
    /// suit, with nothing between them.
    pub open spec fn text(self) -> Seq<char> {
        self.rank().label() + self.suit().glyph()
    }

    /// Renders the card as its text.
    pub fn render(&self) -> (s: String)
        ensures
            s@ == self.text(),
    {
        let mut s = self.1.render();
        let glyph = self.0.render();
        s.append(glyph.as_str());
        s
    }
}

} // verus!
