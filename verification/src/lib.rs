//! A three-card poker engine: hand classification with a total order over
//! hands, randomized six-card deals from the canonical 52-card deck, and a
//! betting engine that turns a deal, a strategy and the previous round's
//! action into the round's monetary outcome and the next action.

pub mod components;
