//! Betting strategies: an immutable policy made of a base ante, the action
//! to take after a win and after a loss, and the minimal hand a player is
//! willing to play. "Setters" return a modified copy; a strategy value is
//! never mutated.
//!
//! Money is counted in integer units chosen by the caller (for instance
//! cents). `Lower2x` halves the ante with integer division, so a caller who
//! wants an exact half picks an even base ante.

use vstd::prelude::*;

use crate::components::card::{Card, CardValue, SUIT};
use crate::components::hand::{spec_default_hand, spec_make_hand, Hand};

verus! {

/// A multiplier directive for the next round's ante: double it, halve it,
/// return to the base ante, or leave it at the base ante.
#[derive(Clone, Copy, PartialEq, Eq, Structural, Debug)]
pub enum Action {
    Raise2x,
    Lower2x,
    BackToBase,
    NoChange,
}

/// The largest base ante a strategy may carry. It keeps every amount the
/// outcome engine computes (at most 12 times the base ante in magnitude)
/// inside `i64`.
pub const MAX_ANTE: i64 = 576460752303423488;

/// An immutable betting policy.
pub struct Strategy {
    pub ante: i64,
    pub on_win: Action,
    pub on_loss: Action,
    pub minimal_playable_hand: Hand,
}

/// The minimal playable hand of the default strategy: Queen of spades,
/// 7 of clubs, 5 of diamonds.
pub open spec fn spec_default_strategy_hand() -> Hand {
    spec_make_hand(
        Card { value: 12, suit: SUIT::SPADES },
        Card { value: 7, suit: SUIT::CLUBS },
        Card { value: 5, suit: SUIT::DIAMONDS },
    )
}

impl Strategy {
    /// A positive, bounded ante and a well-formed threshold hand.
    pub open spec fn wf(self) -> bool {
        0 < self.ante <= MAX_ANTE && self.minimal_playable_hand.wf()
    }

    /// A strategy with the given base ante, no ante adjustment after either
    /// outcome, and the standard fresh threshold hand.
    pub fn new(ante: i64) -> (s: Self)
        requires
            0 < ante <= MAX_ANTE,
        ensures
            s.ante == ante,
            s.on_win == Action::NoChange,
            s.on_loss == Action::NoChange,
            s.minimal_playable_hand == spec_default_hand(),
            s.wf(),
    {
        Self {
            ante: ante,
            on_win: Action::NoChange,
            on_loss: Action::NoChange,
            minimal_playable_hand: Hand::default(),
        }
    }

    /// A copy of this strategy with only the after-win action replaced.
    pub fn set_on_win(&self, on_win: Action) -> (s: Self)
        ensures
            s.ante == self.ante,
            s.on_win == on_win,
            s.on_loss == self.on_loss,
            s.minimal_playable_hand == self.minimal_playable_hand,
    {
        Self {
            ante: self.ante,
            on_win,
            on_loss: self.on_loss,
            minimal_playable_hand: self.minimal_playable_hand,
        }
    }

    /// A copy of this strategy with only the after-loss action replaced.
    pub fn set_on_loss(&self, on_loss: Action) -> (s: Self)
        ensures
            s.ante == self.ante,
            s.on_win == self.on_win,
            s.on_loss == on_loss,
            s.minimal_playable_hand == self.minimal_playable_hand,
    {
        Self {
            ante: self.ante,
            on_win: self.on_win,
            on_loss,
            minimal_playable_hand: self.minimal_playable_hand,
        }
    }

    /// A copy of this strategy with only the threshold hand replaced.
    pub fn set_minimal_playable_hand(&self, hand: Hand) -> (s: Self)
        ensures
            s.ante == self.ante,
            s.on_win == self.on_win,
            s.on_loss == self.on_loss,
            s.minimal_playable_hand == hand,
    {
        Self {
            ante: self.ante,
            on_win: self.on_win,
            on_loss: self.on_loss,
            minimal_playable_hand: hand,
        }
    }

    pub fn ante(&self) -> (r: i64)
        ensures
            r == self.ante,
    {
        self.ante
    }

    pub fn on_win(&self) -> (r: Action)
        ensures
            r == self.on_win,
    {
        self.on_win
    }

    pub fn on_loss(&self) -> (r: Action)
        ensures
            r == self.on_loss,
    {
        self.on_loss
    }

    pub fn minimal_playable_hand(&self) -> (r: &Hand)
        ensures
            r == &self.minimal_playable_hand,
    {
        &self.minimal_playable_hand
    }
}

impl Default for Strategy {
    /// Ante of one unit, double after a win, stay at base after a loss, and
    /// play anything above Queen-7-5 high.
    fn default() -> (s: Self)
        ensures
            s.ante == 1,
            s.on_win == Action::Raise2x,
            s.on_loss == Action::NoChange,
            s.minimal_playable_hand == spec_default_strategy_hand(),
            s.wf(),
    {
        Self {
            ante: 1,
            on_win: Action::Raise2x,
            on_loss: Action::NoChange,
            minimal_playable_hand: Hand::new(
                [
                    Card::new(CardValue::QUEEN.rank(), SUIT::SPADES),
                    Card::new(CardValue::SEVEN.rank(), SUIT::CLUBS),
                    Card::new(CardValue::FIVE.rank(), SUIT::DIAMONDS),
                ],
            ),
        }
    }
}

} // verus!
