use three_card_poker::components::card::Card;
use three_card_poker::components::card::CardValue::{
    ACE, FIVE, FOUR, JACK, KING, NINE, QUEEN, SEVEN, SIX, TEN, THREE, TWO,
};
use three_card_poker::components::card::SUIT::{CLUBS, DIAMONDS, HEARTS, SPADES};
use three_card_poker::components::hand::{Hand, HandValue};

#[test]
fn compare_cards() {
    // Test card 1
    let c1 = Card::new(TWO.rank(), HEARTS);
    // Test card 2
    let c2 = Card::new(ACE.rank(), DIAMONDS);
    // Test card 3
    let c3 = Card::new(FIVE.rank(), CLUBS);
    // Test card 4
    let c4 = Card::new(FIVE.rank(), SPADES);

    assert_eq!(c1 < c2, true);
    assert_eq!(c3 == c4, true);
    assert_eq!(c2 < c4, false);
}

#[test]
fn test_hand_value() {
    let straight = Hand::new([
        Card::new(ACE.rank(), HEARTS),
        Card::new(KING.rank(), SPADES),
        Card::new(QUEEN.rank(), SPADES),
    ]);

    let royal_flush = Hand::new([
        Card::new(ACE.rank(), SPADES),
        Card::new(KING.rank(), SPADES),
        Card::new(QUEEN.rank(), SPADES),
    ]);

    let three_aces = Hand::new([
        Card::new(ACE.rank(), SPADES),
        Card::new(ACE.rank(), DIAMONDS),
        Card::new(ACE.rank(), HEARTS),
    ]);

    let pair_ace_five = Hand::new([
        Card::new(ACE.rank(), SPADES),
        Card::new(ACE.rank(), DIAMONDS),
        Card::new(FIVE.rank(), HEARTS),
    ]);

    let straight_flush = Hand::new([
        Card::new(JACK.rank(), SPADES),
        Card::new(NINE.rank(), SPADES),
        Card::new(TEN.rank(), SPADES),
    ]);

    let ace_king_flush = Hand::new([
        Card::new(ACE.rank(), SPADES),
        Card::new(KING.rank(), SPADES),
        Card::new(FIVE.rank(), SPADES),
    ]);

    assert_eq!(straight.get_hand_value(), HandValue::Straight);

    assert_eq!(royal_flush.get_hand_value(), HandValue::RoyalFlush);

    assert_eq!(three_aces.get_hand_value(), HandValue::ThreeOfAKind);

    assert_eq!(pair_ace_five.get_hand_value(), HandValue::Pair);

    assert_eq!(straight_flush.get_hand_value(), HandValue::StraightFlush);

    assert_eq!(ace_king_flush.get_hand_value(), HandValue::Flush);
}

#[test]
fn hand_comparison() {
    let straight = Hand::new([
        Card::new(ACE.rank(), HEARTS),
        Card::new(KING.rank(), SPADES),
        Card::new(QUEEN.rank(), SPADES),
    ]);

    let royal_flush = Hand::new([
        Card::new(ACE.rank(), SPADES),
        Card::new(KING.rank(), SPADES),
        Card::new(QUEEN.rank(), SPADES),
    ]);

    let three_aces = Hand::new([
        Card::new(ACE.rank(), SPADES),
        Card::new(ACE.rank(), DIAMONDS),
        Card::new(ACE.rank(), HEARTS),
    ]);

    let pair_ace_five = Hand::new([
        Card::new(ACE.rank(), SPADES),
        Card::new(ACE.rank(), DIAMONDS),
        Card::new(FIVE.rank(), HEARTS),
    ]);

    let straight_flush = Hand::new([
        Card::new(JACK.rank(), SPADES),
        Card::new(NINE.rank(), SPADES),
        Card::new(TEN.rank(), SPADES),
    ]);

    let ace_king_flush = Hand::new([
        Card::new(ACE.rank(), SPADES),
        Card::new(KING.rank(), SPADES),
        Card::new(FIVE.rank(), SPADES),
    ]);

    let three_tens = Hand::new([
        Card::new(TEN.rank(), SPADES),
        Card::new(TEN.rank(), DIAMONDS),
        Card::new(TEN.rank(), HEARTS),
    ]);

    let pair_ace_four = Hand::new([
        Card::new(ACE.rank(), SPADES),
        Card::new(ACE.rank(), DIAMONDS),
        Card::new(FOUR.rank(), HEARTS),
    ]);

    let ace_king_flush_lower = Hand::new([
        Card::new(ACE.rank(), SPADES),
        Card::new(KING.rank(), SPADES),
        Card::new(FOUR.rank(), SPADES),
    ]);

    assert!(straight > pair_ace_five);
    assert!(royal_flush > straight_flush);
    assert!(three_aces > three_tens);
    assert!(pair_ace_five > pair_ace_four);
    assert!(ace_king_flush > ace_king_flush_lower)
}

#[test]
fn classification_literal_cases() {
    let high_card = Hand::new([
        Card::new(TEN.rank(), SPADES),
        Card::new(NINE.rank(), CLUBS),
        Card::new(FIVE.rank(), DIAMONDS),
    ]);
    assert_eq!(high_card.get_hand_value(), HandValue::HighCard);

    let low_pair = Hand::new([
        Card::new(TWO.rank(), SPADES),
        Card::new(SEVEN.rank(), CLUBS),
        Card::new(TWO.rank(), DIAMONDS),
    ]);
    assert_eq!(low_pair.get_hand_value(), HandValue::Pair);

    let mid_straight = Hand::new([
        Card::new(SEVEN.rank(), SPADES),
        Card::new(FIVE.rank(), CLUBS),
        Card::new(SIX.rank(), DIAMONDS),
    ]);
    assert_eq!(mid_straight.get_hand_value(), HandValue::Straight);
}

#[test]
fn low_ace_straight() {
    let mixed = Hand::new([
        Card::new(ACE.rank(), HEARTS),
        Card::new(TWO.rank(), SPADES),
        Card::new(THREE.rank(), CLUBS),
    ]);
    assert_eq!(mixed.get_hand_value(), HandValue::Straight);

    let suited = Hand::new([
        Card::new(ACE.rank(), SPADES),
        Card::new(TWO.rank(), SPADES),
        Card::new(THREE.rank(), SPADES),
    ]);
    assert_eq!(suited.get_hand_value(), HandValue::StraightFlush);
}

/// The dealer qualification rule, written over the public key exactly as
/// the engine applies it: the key must strictly exceed (HighCard, 12, 0, 0).
fn qualifies(h: &Hand) -> bool {
    let k = h.key();
    k.0.weight() > 0 || k.1 > 12 || (k.1 == 12 && (k.2 > 0 || (k.2 == 0 && k.3 > 0)))
}

#[test]
fn dealer_qualification_boundary() {
    let queen_high = Hand::new([
        Card::new(QUEEN.rank(), SPADES),
        Card::new(SEVEN.rank(), CLUBS),
        Card::new(FIVE.rank(), DIAMONDS),
    ]);
    assert!(qualifies(&queen_high));

    let king_high = Hand::new([
        Card::new(KING.rank(), SPADES),
        Card::new(THREE.rank(), CLUBS),
        Card::new(TWO.rank(), DIAMONDS),
    ]);
    assert!(qualifies(&king_high));

    let jack_high = Hand::new([
        Card::new(JACK.rank(), SPADES),
        Card::new(SEVEN.rank(), CLUBS),
        Card::new(FIVE.rank(), DIAMONDS),
    ]);
    assert!(!qualifies(&jack_high));

    let low_pair = Hand::new([
        Card::new(TWO.rank(), SPADES),
        Card::new(TWO.rank(), CLUBS),
        Card::new(FIVE.rank(), DIAMONDS),
    ]);
    assert!(qualifies(&low_pair));

    // Full-key comparison between hands whose top cards tie.
    let queen_high_better = Hand::new([
        Card::new(QUEEN.rank(), HEARTS),
        Card::new(SEVEN.rank(), DIAMONDS),
        Card::new(NINE.rank(), CLUBS),
    ]);
    assert!(queen_high_better > queen_high);
    assert!(qualifies(&queen_high_better));
}
