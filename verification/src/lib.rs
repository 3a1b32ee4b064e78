//! Playing cards and a minimal classification of five-card hands.
//!
//! A [`Rank`] is one of thirteen symbols ordered ace-high, a [`Card`] pairs a
//! [`Suit`] with a rank, and a [`Hand`] holds exactly five cards. A hand is
//! classified as a pair when its first two cards share a rank, and by its
//! highest card otherwise.

pub mod card;
pub mod hand;
pub mod rank;
pub mod suit;

pub use card::Card;
pub use hand::Hand;
pub use hand::HandRank;
pub use rank::Rank;
pub use suit::Suit;
