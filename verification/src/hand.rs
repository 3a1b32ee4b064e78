//! Five-card hands and their classification.

use crate::card::Card;
use crate::rank::Rank;
use vstd::prelude::*;
use vstd::std_specs::cmp::PartialOrdSpec;
use vstd::string::StringExecFns;

verus! {

/// Five cards in a fixed order. Nothing is asked of the cards: the same card
/// may occur more than once.
#[derive(Debug)]
pub struct Hand(pub Card, pub Card, pub Card, pub Card, pub Card);

/// What a hand is classified as, with the rank that decides it.
#[derive(Debug, PartialEq, Eq, Structural)]
pub enum HandRank {
    HighCard(Rank),
    OnePair(Rank),
}

impl View for Hand {
    type V = Seq<Card>;

    /// The cards of the hand, in their order.
    open spec fn view(&self) -> Seq<Card> {
        seq![self.0, self.1, self.2, self.3, self.4]
    }
}

impl Hand {
    /// The separator between two cards in the text of a hand.
    pub open spec fn separator() -> Seq<char> {
        seq![',', ' ']
    }

    /// Whether the first two cards share a rank. Only these two positions
    /// count: a pair anywhere else in the hand is not looked for.
    pub open spec fn has_leading_pair(self) -> bool {
        self@[0].rank() == self@[1].rank()
    }

    /// The rank of the pair that the first two cards form, if they form one.
    pub open spec fn leading_pair(self) -> Option<Rank> {
        if self.has_leading_pair() {
            Some(self@[0].rank())
        } else {
            None
        }
    }

    /// Whether `r` is the rank of one of the five cards and no card of the
    /// hand has a rank above it.
    pub open spec fn is_highest(self, r: Rank) -> bool {
        &&& exists|i: int| 0 <= i < 5 && (#[trigger] self@[i]).rank() == r
        &&& forall|i: int| 0 <= i < 5 ==> (#[trigger] self@[i]).rank().index() <= r.index()
    }

    /// The highest rank among the five cards.
    pub open spec fn highest(self) -> Rank {
        self@[0].rank().higher(self@[1].rank()).higher(self@[2].rank()).higher(
            self@[3].rank(),
        ).higher(self@[4].rank())
    }

    /// Whether `outcome` is what the hand is classified as: a pair of the
    /// first card's rank where the first two cards share a rank, and
    /// otherwise the highest rank in the hand.
    pub open spec fn classifies(self, outcome: HandRank) -> bool {
        match outcome {
            HandRank::OnePair(r) => self.has_leading_pair() && r == self@[0].rank(),
            HandRank::HighCard(r) => !self.has_leading_pair() && self.is_highest(r),
        }
    }

    /// The classification of the hand.
    pub open spec fn classification(self) -> HandRank {
        if self.has_leading_pair() {
            HandRank::OnePair(self@[0].rank())
        } else {
            HandRank::HighCard(self.highest())
        }
    }

    /// The text of the hand: the texts of its five cards in their order,
    /// with a comma and a space between neighbours.
    pub open spec fn text(self) -> Seq<char> {
        self@[0].text() + Self::separator() + self@[1].text() + Self::separator()
            + self@[2].text() + Self::separator() + self@[3].text() + Self::separator()
            + self@[4].text()
    }

    /// The rank of the pair that the first two cards form, if they form one.
    pub fn highest_pair(&self) -> (pair: Option<Rank>)
        ensures
            pair == self.leading_pair(),
    {
        let r1 = self.0.1;
        let r2 = self.1.1;
        if r1 == r2 {
            Some(r1)
        } else {
            None
        }
    }

    /// Classifies the hand.
    pub fn rank(&self) -> (outcome: HandRank)
        ensures
            outcome == self.classification(),
            self.classifies(outcome),
    {
        if let Some(rank) = self.highest_pair() {
            HandRank::OnePair(rank)
        } else {
            let ranks: [Rank; 5] = [self.0.1, self.1.1, self.2.1, self.3.1, self.4.1];
            let mut best = ranks[0];
            let mut i: usize = 1;
            while i < 5
                invariant
                    1 <= i <= 5,
                    forall|j: int| 0 <= j < 5 ==> ranks@[j] == (#[trigger] self@[j]).rank(),
                    exists|j: int| 0 <= j < i && (#[trigger] self@[j]).rank() == best,
                    forall|j: int| 0 <= j < i ==> (#[trigger] self@[j]).rank().index() <= best.index(),
                decreases 5 - i,
            {
                if best < ranks[i] {
                    best = ranks[i];
                }
                i += 1;
            }
            proof {
                lemma_highest_is_unique(*self, best);
            }
            HandRank::HighCard(best)
        }
    }

    /// Renders the hand as its text.
    pub fn render(&self) -> (s: String)
        ensures
            s@ == self.text(),
    {
        proof {
            reveal_strlit(", ");
            assert(", "@ =~= Self::separator());
        }
        let mut s = self.0.render();
        s.append(", ");
        s.append(self.1.render().as_str());
        s.append(", ");
        s.append(self.2.render().as_str());
        s.append(", ");
        s.append(self.3.render().as_str());
        s.append(", ");
        s.append(self.4.render().as_str());
        s
    }
}

/// A hand holds exactly five cards, and its view lists them in their order.
pub proof fn lemma_hand_has_five_cards(hand: Hand)
    ensures
        hand@.len() == 5,
        hand@[0] == hand.0,
        hand@[1] == hand.1,
        hand@[2] == hand.2,
        hand@[3] == hand.3,
        hand@[4] == hand.4,
{
}

/// Exactly one rank is the highest of a hand: the one that `highest` gives.
pub proof fn lemma_highest_is_unique(hand: Hand, r: Rank)
    ensures
        hand.is_highest(hand.highest()),
        hand.is_highest(r) <==> r == hand.highest(),
{
    let h = hand.highest();
    assert(hand.is_highest(h)) by {
        assert(h == hand@[0].rank() || h == hand@[1].rank() || h == hand@[2].rank() || h
            == hand@[3].rank() || h == hand@[4].rank());
    }
    if hand.is_highest(r) {
        let i = choose|i: int| 0 <= i < 5 && (#[trigger] hand@[i]).rank() == r;
        let k = choose|k: int| 0 <= k < 5 && (#[trigger] hand@[k]).rank() == h;
        assert(hand@[i].rank().index() <= h.index());
        assert(hand@[k].rank().index() <= r.index());
        crate::rank::lemma_rank_index_identifies(r, h);
    }
}

/// Where the first two cards do not share a rank, a hand is classified by
/// its highest rank: a rank that occurs in the hand and that no card
/// exceeds.
pub proof fn lemma_high_card_selection(hand: Hand)
    requires
        hand.0.1 != hand.1.1,
    ensures
        hand.classification() == HandRank::HighCard(hand.highest()),
        hand.is_highest(hand.highest()),
{
    lemma_highest_is_unique(hand, hand.highest());
}

/// Where the first two cards share a rank, a hand is classified as a pair of
/// that rank, whatever the other three cards are.
pub proof fn lemma_one_pair_selection(hand: Hand)
    requires
        hand.0.1 == hand.1.1,
    ensures
        hand.classification() == HandRank::OnePair(hand.0.1),
{
}

/// The first two ranks alone decide whether a hand is a pair, and the five
/// ranks alone decide its classification: the suits and the last three
/// ranks of a pair play no part.
pub proof fn lemma_classification_reads_ranks_only(a: Hand, b: Hand)
    requires
        a.0.1 == b.0.1,
        a.1.1 == b.1.1,
        a.has_leading_pair() || (a.2.1 == b.2.1 && a.3.1 == b.3.1 && a.4.1 == b.4.1),
    ensures
        a.classification() == b.classification(),
{
}

/// The text of a hand is decided by its cards and their order, so rendering
/// a hand again gives the same characters.
pub proof fn lemma_text_is_unique(a: Hand, b: Hand, first: Seq<char>, second: Seq<char>)
    requires
        a@ == b@,
        first == a.text(),
        second == b.text(),
    ensures
        first == second,
{
}

/// Every hand has exactly one classification, so classifying a hand again
/// gives the same outcome.
pub proof fn lemma_classification_is_unique(hand: Hand, first: HandRank, second: HandRank)
    requires
        hand.classifies(first),
        hand.classifies(second),
    ensures
        first == second,
        first == hand.classification(),
{
    lemma_highest_is_unique(hand, hand.highest());
    match first {
        HandRank::OnePair(r) => {},
        HandRank::HighCard(r) => {
            lemma_highest_is_unique(hand, r);
        },
    }
    match second {
        HandRank::OnePair(r) => {},
        HandRank::HighCard(r) => {
            lemma_highest_is_unique(hand, r);
        },
    }
}

} // verus!
