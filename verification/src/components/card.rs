//! Cards: a rank (2 through 14, Ace high) paired with a suit. Cards compare
//! by rank alone; the suit never breaks a tie at the card level.

use vstd::prelude::*;

verus! {

/// The four suits. Purely informational for ordering; flush detection is the
/// only rule that reads it.
#[derive(PartialEq, Eq, Structural, Clone, Copy, Debug)]
#[allow(non_camel_case_types)]
pub enum SUIT {
    SPADES,
    CLUBS,
    HEARTS,
    DIAMONDS,
}

/// The thirteen canonical ranks, named. `rank` maps each to its numeric
/// value: Ace is 14 (high), face cards 11 to 13, the rest their pip count.
#[derive(Clone, Copy, Debug)]
#[allow(non_camel_case_types)]
pub enum CardValue {
    ACE,
    KING,
    QUEEN,
    JACK,
    TEN,
    NINE,
    EIGHT,
    SEVEN,
    SIX,
    FIVE,
    FOUR,
    THREE,
    TWO,
}

impl CardValue {
    /// The numeric rank this name stands for.
    pub open spec fn spec_rank(self) -> u8 {
        match self {
            CardValue::ACE => 14,
            CardValue::KING => 13,
            CardValue::QUEEN => 12,
            CardValue::JACK => 11,
            CardValue::TEN => 10,
            CardValue::NINE => 9,
            CardValue::EIGHT => 8,
            CardValue::SEVEN => 7,
            CardValue::SIX => 6,
            CardValue::FIVE => 5,
            CardValue::FOUR => 4,
            CardValue::THREE => 3,
            CardValue::TWO => 2,
        }
    }

    #[verifier::when_used_as_spec(spec_rank)]
    pub fn rank(self) -> (r: u8)
        ensures
            r == self.spec_rank(),
    {
        match self {
            CardValue::ACE => 14,
            CardValue::KING => 13,
            CardValue::QUEEN => 12,
            CardValue::JACK => 11,
            CardValue::TEN => 10,
            CardValue::NINE => 9,
            CardValue::EIGHT => 8,
            CardValue::SEVEN => 7,
            CardValue::SIX => 6,
            CardValue::FIVE => 5,
            CardValue::FOUR => 4,
            CardValue::THREE => 3,
            CardValue::TWO => 2,
        }
    }
}

/// One playing card. `value` is the rank, 2..=14; constructing a card with a
/// rank outside that range is a caller error, never checked at runtime.
#[derive(Clone, Copy, Debug)]
pub struct Card {
    pub value: u8,
    pub suit: SUIT,
}

/// A card's rank lies in the canonical range.
pub open spec fn card_rank_valid(c: Card) -> bool {
    2 <= c.value <= 14
}

impl Card {
    pub fn new(value: u8, suit: SUIT) -> (c: Card)
        ensures
            c.value == value,
            c.suit == suit,
    {
        Card { suit: suit, value: value }
    }
}

impl PartialEq for Card {
    fn eq(&self, other: &Self) -> bool {
        self.value == other.value
    }
}

impl Eq for Card {}

impl vstd::std_specs::cmp::PartialEqSpecImpl for Card {
    open spec fn obeys_eq_spec() -> bool {
        true
    }

    open spec fn eq_spec(&self, other: &Card) -> bool {
        self.value == other.value
    }
}

impl PartialOrd for Card {
    fn partial_cmp(&self, other: &Self) -> Option<core::cmp::Ordering> {
        if self.value < other.value {
            Some(core::cmp::Ordering::Less)
        } else if self.value == other.value {
            Some(core::cmp::Ordering::Equal)
        } else {
            Some(core::cmp::Ordering::Greater)
        }
    }
}

impl vstd::std_specs::cmp::PartialOrdSpecImpl for Card {
    open spec fn obeys_partial_cmp_spec() -> bool {
        true
    }

    open spec fn partial_cmp_spec(&self, other: &Card) -> Option<core::cmp::Ordering> {
        if self.value < other.value {
            Some(core::cmp::Ordering::Less)
        } else if self.value == other.value {
            Some(core::cmp::Ordering::Equal)
        } else {
            Some(core::cmp::Ordering::Greater)
        }
    }
}

} // verus!
