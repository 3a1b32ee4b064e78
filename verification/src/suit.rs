//! The four suits and their glyphs.

use vstd::prelude::*;
use vstd::string::StringExecFns;

verus! {

/// One of the four suits. Suits carry no order.
#[derive(Debug, Copy, Clone)]
pub enum Suit {
    Clubs,
    Diamonds,
    Hearts,
    Spades,
}

impl Suit {
    /// The single character that stands for the suit in text.
    pub open spec fn glyph(self) -> Seq<char> {
        match self {
            Suit::Clubs => seq!['♣'],
            Suit::Diamonds => seq!['♦'],
            Suit::Hearts => seq!['♥'],
            Suit::Spades => seq!['♠'],
        }
    }

    /// Renders the suit as its glyph.
    pub fn render(&self) -> (s: String)
        ensures
            s@ == self.glyph(),
    {
        proof {
            reveal_strlit("♣");
            reveal_strlit("♦");
            reveal_strlit("♥");
            reveal_strlit("♠");
        }
        let s = match self {
            Suit::Clubs => String::from_str("♣"),
            Suit::Diamonds => String::from_str("♦"),
            Suit::Hearts => String::from_str("♥"),
            Suit::Spades => String::from_str("♠"),
        };
        assert(s@ =~= self.glyph());
        s
    }
}

} // verus!
