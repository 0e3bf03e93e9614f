//! The individual classification rules, each as a predicate on a hand's
//! stored (sorted) cards.

use vstd::prelude::*;

use crate::components::hand::{
    spec_is_flush, spec_is_royal_flush, spec_is_straight, spec_pair, spec_pair_kicker,
    spec_three_of_a_kind, Hand,
};

verus! {

/// All three cards share a suit.
pub fn is_flush(hand: &Hand) -> (r: bool)
    ensures
        r == spec_is_flush(hand.holder),
{
    hand.holder.0.suit == hand.holder.1.suit && hand.holder.0.suit == hand.holder.2.suit
}

/// Three consecutive ranks; an Ace-high hand instead completes either the
/// low 2-3-Ace run or the Queen-King-Ace run.
pub fn is_straight(hand: &Hand) -> (r: bool)
    requires
        hand.ace_consistent(),
    ensures
        r == spec_is_straight(hand.holder),
{
    if hand.has_ace {
        return (hand.holder.0.value == 2 && hand.holder.1.value == 3) || (hand.holder.0.value
            == 12 && hand.holder.1.value == 13);
    }
    hand.holder.0.value as u16 + 1 == hand.holder.1.value as u16 && hand.holder.1.value as u16 + 1
        == hand.holder.2.value as u16
}

/// Queen, King and Ace of one suit.
pub fn is_royal_flush(hand: &Hand) -> (r: bool)
    requires
        hand.ace_consistent(),
    ensures
        r == spec_is_royal_flush(hand.holder),
{
    if !hand.has_ace || hand.holder.1.value != 13 || hand.holder.0.value != 12 {
        return false;
    }
    if !is_flush(hand) {
        return false;
    }
    true
}

/// A straight whose cards also share a suit.
pub fn is_straight_flush(hand: &Hand) -> (r: bool)
    requires
        hand.ace_consistent(),
    ensures
        r == (spec_is_flush(hand.holder) && spec_is_straight(hand.holder)),
{
    is_flush(hand) && is_straight(hand)
}

/// The shared rank when all three ranks are equal.
pub fn is_three_of_a_kind(hand: &Hand) -> (r: Option<u8>)
    ensures
        r == spec_three_of_a_kind(hand.holder),
{
    if hand.holder.0.value == hand.holder.1.value && hand.holder.0.value == hand.holder.2.value {
        return Some(hand.holder.0.value);
    }
    None
}

/// The rank of an adjacent equal pair in the sorted cards, if any; the pair
/// may sit in the lower two or the upper two positions.
pub fn get_a_pair(hand: &Hand) -> (r: Option<u8>)
    ensures
        r == spec_pair(hand.holder),
{
    if hand.holder.0.value == hand.holder.1.value {
        Some(hand.holder.0.value)
    } else if hand.holder.1.value == hand.holder.2.value {
        Some(hand.holder.1.value)
    } else {
        None
    }
}

/// The rank of the card outside the pair, or 0 when there is no pair.
pub fn get_highest_card_in_pair(hand: &Hand) -> (r: u8)
    ensures
        r == spec_pair_kicker(hand.holder),
{
    if hand.holder.0.value == hand.holder.1.value {
        hand.holder.2.value
    } else if hand.holder.1.value == hand.holder.2.value {
        hand.holder.0.value
    } else {
        0
    }
}

} // verus!
