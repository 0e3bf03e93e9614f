//! The outcome of one round: whether the player played, whether the dealer
//! qualified, who won, the signed monetary outcome, the ante that was at
//! stake, and the action to carry into the next round. Immutable once built.

use vstd::prelude::*;

use crate::components::strategy::Action;

verus! {

/// One round's result. Amounts are in the same integer money units as the
/// strategy's ante; `outcome` is the player's net gain (negative for a loss).
#[derive(Clone, Copy, PartialEq, Eq, Structural, Debug)]
pub struct GameResult {
    pub played: bool,
    pub dealer_qualified: bool,
    pub player_won: bool,
    pub outcome: i64,
    pub ante_bet: i64,
    pub next_action: Action,
}

impl GameResult {
    pub fn new(
        played: bool,
        dealer_qualified: bool,
        player_won: bool,
        outcome: i64,
        ante_bet: i64,
        next_action: Action,
    ) -> (r: Self)
        ensures
            r.played == played,
            r.dealer_qualified == dealer_qualified,
            r.player_won == player_won,
            r.outcome == outcome,
            r.ante_bet == ante_bet,
            r.next_action == next_action,
    {
        GameResult { played, dealer_qualified, player_won, outcome, ante_bet, next_action }
    }

    pub fn player_won(&self) -> (r: bool)
        ensures
            r == self.player_won,
    {
        self.player_won
    }

    pub fn next_action(&self) -> (r: Action)
        ensures
            r == self.next_action,
    {
        self.next_action
    }

    pub fn outcome(&self) -> (r: i64)
        ensures
            r == self.outcome,
    {
        self.outcome
    }

    pub fn ante_bet(&self) -> (r: i64)
        ensures
            r == self.ante_bet,
    {
        self.ante_bet
    }

    pub fn played(&self) -> (r: bool)
        ensures
            r == self.played,
    {
        self.played
    }

    pub fn dealer_qualified(&self) -> (r: bool)
        ensures
            r == self.dealer_qualified,
    {
        self.dealer_qualified
    }
}

} // verus!
