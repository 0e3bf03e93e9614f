//! Bookkeeping for one simulated session: its bankroll, the deck in play,
//! the strategy followed, and the running outcome.

use vstd::prelude::*;

use crate::components::deck::Deck;
use crate::components::strategy::{Action, Strategy};

verus! {

/// A session's state between rounds. Carried by external drivers; the core
/// engine itself only ever reads and produces the pieces it is made of.
#[allow(dead_code)]
pub struct Game {
    balance: i128,
    deck: Deck,
    strat: Strategy,
    played: bool,
    outcome: i128,
    next_action: Option<Action>,
}

} // verus!
