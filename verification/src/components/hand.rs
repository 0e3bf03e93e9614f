//! Hands: three cards, stored sorted ascending by rank, classified once at
//! construction into one of seven ranking classes, and totally ordered by a
//! four-part comparison key.

use vstd::prelude::*;

use crate::components::card::{card_rank_valid, Card, CardValue, SUIT};
use crate::components::support_functions::{
    get_a_pair, get_highest_card_in_pair, is_flush, is_royal_flush, is_straight,
    is_straight_flush, is_three_of_a_kind,
};

verus! {

/// The seven ranking classes. Their strength order is given by
/// `class_weight`, explicitly, not by declaration order.
#[derive(Clone, Copy, PartialEq, Eq, Structural, Debug)]
pub enum HandValue {
    RoyalFlush,
    StraightFlush,
    ThreeOfAKind,
    Straight,
    Flush,
    Pair,
    HighCard,
}

/// Numeric strength of a ranking class; higher means stronger.
pub open spec fn class_weight(v: HandValue) -> int {
    match v {
        HandValue::RoyalFlush => 6,
        HandValue::StraightFlush => 5,
        HandValue::ThreeOfAKind => 4,
        HandValue::Straight => 3,
        HandValue::Flush => 2,
        HandValue::Pair => 1,
        HandValue::HighCard => 0,
    }
}

impl HandValue {
    pub fn weight(self) -> (w: u8)
        ensures
            w as int == class_weight(self),
    {
        match self {
            HandValue::RoyalFlush => 6,
            HandValue::StraightFlush => 5,
            HandValue::ThreeOfAKind => 4,
            HandValue::Straight => 3,
            HandValue::Flush => 2,
            HandValue::Pair => 1,
            HandValue::HighCard => 0,
        }
    }
}

/// The three cards of a triple are in ascending rank order.
pub open spec fn spec_sorted(t: (Card, Card, Card)) -> bool {
    t.0.value <= t.1.value && t.1.value <= t.2.value
}

/// All three ranks lie in the canonical range 2..=14.
pub open spec fn spec_ranks_valid(t: (Card, Card, Card)) -> bool {
    card_rank_valid(t.0) && card_rank_valid(t.1) && card_rank_valid(t.2)
}

/// All three cards share one suit.
pub open spec fn spec_is_flush(t: (Card, Card, Card)) -> bool {
    t.0.suit == t.1.suit && t.0.suit == t.2.suit
}

/// Three consecutive ranks, where an Ace-high triple also completes either
/// the Queen-King-Ace run or the low 2-3-Ace run. Reads the triple as sorted.
pub open spec fn spec_is_straight(t: (Card, Card, Card)) -> bool {
    if t.2.value == 14 {
        (t.0.value == 2 && t.1.value == 3) || (t.0.value == 12 && t.1.value == 13)
    } else {
        t.0.value + 1 == t.1.value && t.1.value + 1 == t.2.value
    }
}

/// Queen, King and Ace of one suit. Reads the triple as sorted.
pub open spec fn spec_is_royal_flush(t: (Card, Card, Card)) -> bool {
    t.2.value == 14 && t.1.value == 13 && t.0.value == 12 && spec_is_flush(t)
}

/// The shared rank when all three ranks are equal.
pub open spec fn spec_three_of_a_kind(t: (Card, Card, Card)) -> Option<u8> {
    if t.0.value == t.1.value && t.0.value == t.2.value {
        Some(t.0.value)
    } else {
        None
    }
}

/// The rank of an adjacent equal pair in the sorted triple, if any. A triple
/// of three equal ranks also reports its rank here; classification checks
/// three of a kind first.
pub open spec fn spec_pair(t: (Card, Card, Card)) -> Option<u8> {
    if t.0.value == t.1.value {
        Some(t.0.value)
    } else if t.1.value == t.2.value {
        Some(t.1.value)
    } else {
        None
    }
}

/// The rank of the unpaired card beside a pair, or 0 when there is no pair.
pub open spec fn spec_pair_kicker(t: (Card, Card, Card)) -> u8 {
    if t.0.value == t.1.value {
        t.2.value
    } else if t.1.value == t.2.value {
        t.0.value
    } else {
        0
    }
}

/// The pair rank, or 0 when there is no pair.
pub open spec fn spec_pair_or_zero(t: (Card, Card, Card)) -> u8 {
    match spec_pair(t) {
        Some(p) => p,
        None => 0,
    }
}

/// Classification of a sorted triple: the rules are tried from strongest to
/// weakest and the first match wins.
pub open spec fn spec_classify(t: (Card, Card, Card)) -> HandValue {
    if spec_is_royal_flush(t) {
        HandValue::RoyalFlush
    } else if spec_is_flush(t) && spec_is_straight(t) {
        HandValue::StraightFlush
    } else if spec_three_of_a_kind(t) is Some {
        HandValue::ThreeOfAKind
    } else if spec_is_straight(t) {
        HandValue::Straight
    } else if spec_is_flush(t) {
        HandValue::Flush
    } else if spec_pair(t) is Some {
        HandValue::Pair
    } else {
        HandValue::HighCard
    }
}

/// The exact sorting network used to order a hand's three cards by rank:
/// compare-and-swap the first pair, then the last pair, then the first pair
/// again. Cards of equal rank keep their relative order.
pub open spec fn spec_sort3(c0: Card, c1: Card, c2: Card) -> (Card, Card, Card) {
    let (a, b) = if c0.value <= c1.value {
        (c0, c1)
    } else {
        (c1, c0)
    };
    let (b2, c) = if b.value <= c2.value {
        (b, c2)
    } else {
        (c2, b)
    };
    let (a2, b3) = if a.value <= b2.value {
        (a, b2)
    } else {
        (b2, a)
    };
    (a2, b3, c)
}

/// Three cards; the triple is kept sorted ascending by rank. `has_ace` is
/// true exactly when the highest card is an Ace, and `value` holds the
/// ranking class, computed once at construction and immutable thereafter.
#[derive(Clone, Copy, Debug)]
pub struct Hand {
    pub holder: (Card, Card, Card),
    pub has_ace: bool,
    pub value: HandValue,
}

/// The hand a construction from the three given cards must yield: the cards
/// sorted by `spec_sort3`, the Ace flag, and the classification.
pub open spec fn spec_make_hand(c0: Card, c1: Card, c2: Card) -> Hand {
    let t = spec_sort3(c0, c1, c2);
    Hand { holder: t, has_ace: t.2.value == 14, value: spec_classify(t) }
}

impl Hand {
    /// `has_ace` agrees with the highest stored card.
    pub open spec fn ace_consistent(self) -> bool {
        self.has_ace == (self.holder.2.value == 14)
    }

    /// The stored cards are sorted, in range, and consistent with `has_ace`.
    pub open spec fn cards_wf(self) -> bool {
        spec_sorted(self.holder) && spec_ranks_valid(self.holder) && self.ace_consistent()
    }

    /// A fully well-formed hand: well-formed cards whose stored class is the
    /// classification of the cards.
    pub open spec fn wf(self) -> bool {
        self.cards_wf() && self.value == spec_classify(self.holder)
    }

    /// Builds a hand from three cards in any order. Ranks outside 2..=14 are
    /// a caller error; the hand is still built, but only canonical ranks give
    /// a well-formed hand.
    pub fn new(cards: [Card; 3]) -> (h: Hand)
        ensures
            h == spec_make_hand(cards[0], cards[1], cards[2]),
            (forall|i: int| 0 <= i < 3 ==> card_rank_valid(cards[i])) ==> h.wf(),
    {
        let c0 = cards[0];
        let c1 = cards[1];
        let c2 = cards[2];
        let (a, b) = if c0.value <= c1.value {
            (c0, c1)
        } else {
            (c1, c0)
        };
        let (b, c) = if b.value <= c2.value {
            (b, c2)
        } else {
            (c2, b)
        };
        let (a, b) = if a.value <= b.value {
            (a, b)
        } else {
            (b, a)
        };
        let has_ace = c.value == 14;
        let partial = Hand { holder: (a, b, c), has_ace, value: HandValue::HighCard };
        let value = classify(&partial);
        Hand { holder: (a, b, c), has_ace, value }
    }

    /// The ranking class, computed once when the hand was built.
    pub fn get_hand_value(&self) -> (v: HandValue)
        ensures
            v == self.value,
    {
        self.value
    }

    /// The comparison key of a hand, as a value.
    pub open spec fn spec_key(self) -> (HandValue, u8, u8, u8) {
        match self.value {
            HandValue::RoyalFlush => (self.value, 0u8, 0u8, 0u8),
            HandValue::ThreeOfAKind => (self.value, self.holder.0.value, 0u8, 0u8),
            HandValue::Pair => (
                self.value,
                spec_pair_or_zero(self.holder),
                spec_pair_kicker(self.holder),
                0u8,
            ),
            _ => (self.value, self.holder.2.value, self.holder.1.value, self.holder.0.value),
        }
    }

    /// The comparison key: the ranking class followed by up to three
    /// tie-break ranks, compared lexicographically between hands.
    pub fn key(&self) -> (k: (HandValue, u8, u8, u8))
        ensures
            k == self.spec_key(),
    {
        let hv = self.get_hand_value();
        match hv {
            HandValue::RoyalFlush => (hv, 0, 0, 0),
            HandValue::ThreeOfAKind => (hv, self.holder.0.value, 0, 0),
            HandValue::Pair => {
                let pair = match get_a_pair(self) {
                    Some(p) => p,
                    None => 0,
                };
                let v2 = get_highest_card_in_pair(self);
                (hv, pair, v2, 0)
            },
            _ => (hv, self.holder.2.value, self.holder.1.value, self.holder.0.value),
        }
    }
}

/// The hand a `Default` construction yields: 2 of hearts, 4 of spades, Ace
/// of spades.
pub open spec fn spec_default_hand() -> Hand {
    spec_make_hand(
        Card { value: 2, suit: SUIT::HEARTS },
        Card { value: 4, suit: SUIT::SPADES },
        Card { value: 14, suit: SUIT::SPADES },
    )
}

impl Default for Hand {
    fn default() -> (h: Self)
        ensures
            h == spec_default_hand(),
            h.wf(),
    {
        Hand::new(
            [
                Card::new(CardValue::TWO.rank(), SUIT::HEARTS),
                Card::new(CardValue::FOUR.rank(), SUIT::SPADES),
                Card::new(CardValue::ACE.rank(), SUIT::SPADES),
            ],
        )
    }
}

/// Classification of a hand's stored cards, trying the rules from strongest
/// to weakest.
fn classify(hand: &Hand) -> (v: HandValue)
    requires
        hand.ace_consistent(),
    ensures
        v == spec_classify(hand.holder),
{
    if is_royal_flush(hand) {
        HandValue::RoyalFlush
    } else if is_straight_flush(hand) {
        HandValue::StraightFlush
    } else if is_three_of_a_kind(hand).is_some() {
        HandValue::ThreeOfAKind
    } else if is_straight(hand) {
        HandValue::Straight
    } else if is_flush(hand) {
        HandValue::Flush
    } else if get_a_pair(hand).is_some() {
        HandValue::Pair
    } else {
        HandValue::HighCard
    }
}

/// Strict lexicographic order on comparison keys: first by class weight,
/// then by the three tie-break ranks in turn.
pub open spec fn key_lt(a: (HandValue, u8, u8, u8), b: (HandValue, u8, u8, u8)) -> bool {
    ||| class_weight(a.0) < class_weight(b.0)
    ||| (class_weight(a.0) == class_weight(b.0) && (a.1 < b.1 || (a.1 == b.1 && (a.2 < b.2
        || (a.2 == b.2 && a.3 < b.3)))))
}

/// Strict order between hands: by their comparison keys.
pub open spec fn spec_hand_lt(a: Hand, b: Hand) -> bool {
    key_lt(a.spec_key(), b.spec_key())
}

/// A dealer hand qualifies iff its key strictly exceeds the synthetic
/// threshold key (HighCard, Queen, 0, 0) — Queen-high or better, decided by
/// the full key comparison, not the top card alone.
pub open spec fn spec_qualifies(d: Hand) -> bool {
    key_lt((HandValue::HighCard, 12u8, 0u8, 0u8), d.spec_key())
}

/// The three-way comparison between hands that `partial_cmp` returns.
pub open spec fn spec_hand_cmp(a: Hand, b: Hand) -> core::cmp::Ordering {
    if spec_hand_lt(a, b) {
        core::cmp::Ordering::Less
    } else if spec_hand_lt(b, a) {
        core::cmp::Ordering::Greater
    } else {
        core::cmp::Ordering::Equal
    }
}

impl PartialEq for Hand {
    /// Hands are equal when their sorted ranks and their class agree; suits
    /// never distinguish two hands.
    fn eq(&self, other: &Self) -> bool {
        self.holder.0.value == other.holder.0.value && self.holder.1.value
            == other.holder.1.value && self.holder.2.value == other.holder.2.value && self.value
            == other.value
    }
}

impl Eq for Hand {}

impl vstd::std_specs::cmp::PartialEqSpecImpl for Hand {
    open spec fn obeys_eq_spec() -> bool {
        true
    }

    open spec fn eq_spec(&self, other: &Hand) -> bool {
        self.holder.0.value == other.holder.0.value && self.holder.1.value
            == other.holder.1.value && self.holder.2.value == other.holder.2.value && self.value
            == other.value
    }
}

impl PartialOrd for Hand {
    fn partial_cmp(&self, other: &Self) -> Option<core::cmp::Ordering> {
        let (av, a1, a2, a3) = self.key();
        let (bv, b1, b2, b3) = other.key();
        let aw = av.weight();
        let bw = bv.weight();
        if aw < bw {
            Some(core::cmp::Ordering::Less)
        } else if bw < aw {
            Some(core::cmp::Ordering::Greater)
        } else if a1 < b1 {
            Some(core::cmp::Ordering::Less)
        } else if b1 < a1 {
            Some(core::cmp::Ordering::Greater)
        } else if a2 < b2 {
            Some(core::cmp::Ordering::Less)
        } else if b2 < a2 {
            Some(core::cmp::Ordering::Greater)
        } else if a3 < b3 {
            Some(core::cmp::Ordering::Less)
        } else if b3 < a3 {
            Some(core::cmp::Ordering::Greater)
        } else {
            Some(core::cmp::Ordering::Equal)
        }
    }
}

impl vstd::std_specs::cmp::PartialOrdSpecImpl for Hand {
    open spec fn obeys_partial_cmp_spec() -> bool {
        true
    }

    open spec fn partial_cmp_spec(&self, other: &Hand) -> Option<core::cmp::Ordering> {
        Some(spec_hand_cmp(*self, *other))
    }
}

/// Sorting a hand's cards permutes them: the stored triple is one of the six
/// arrangements of the three given cards.
pub proof fn lemma_sort3_permutes(c0: Card, c1: Card, c2: Card)
    ensures
        ({
            let t = spec_sort3(c0, c1, c2);
            t == (c0, c1, c2) || t == (c0, c2, c1) || t == (c1, c0, c2) || t == (c1, c2, c0) || t
                == (c2, c0, c1) || t == (c2, c1, c0)
        }),
{
}

/// The order on hands is irreflexive: no hand is strictly below itself.
pub proof fn lemma_hand_order_irreflexive(a: Hand)
    ensures
        !spec_hand_lt(a, a),
{
}

/// The order on hands is asymmetric: hands are never each strictly below
/// the other.
pub proof fn lemma_hand_order_asymmetric(a: Hand, b: Hand)
    requires
        spec_hand_lt(a, b),
    ensures
        !spec_hand_lt(b, a),
{
}

/// The order on hands is transitive.
pub proof fn lemma_hand_order_transitive(a: Hand, b: Hand, c: Hand)
    requires
        spec_hand_lt(a, b),
        spec_hand_lt(b, c),
    ensures
        spec_hand_lt(a, c),
{
}

/// The order on hands is total: two hands compare one way, the other way,
/// or their keys agree — and equal keys mean a push for betting purposes.
pub proof fn lemma_hand_order_total(a: Hand, b: Hand)
    ensures
        spec_hand_lt(a, b) || spec_hand_lt(b, a) || a.spec_key() == b.spec_key(),
{
}

/// A royal flush is never below any hand, and is strictly above every hand
/// of any other class.
pub proof fn lemma_royal_flush_top(a: Hand, b: Hand)
    requires
        a.wf(),
        b.wf(),
        a.value == HandValue::RoyalFlush,
    ensures
        !spec_hand_lt(a, b),
        b.value != HandValue::RoyalFlush ==> spec_hand_lt(b, a),
{
}

/// Between three-of-a-kind hands, the higher triple rank wins, whatever the
/// suits.
pub proof fn lemma_three_of_a_kind_order(a: Hand, b: Hand)
    requires
        a.wf(),
        b.wf(),
        a.value == HandValue::ThreeOfAKind,
        b.value == HandValue::ThreeOfAKind,
        a.holder.0.value < b.holder.0.value,
    ensures
        spec_hand_lt(a, b),
{
}

/// Between pair hands, the higher pair rank wins; with equal pair ranks the
/// kicker decides.
pub proof fn lemma_pair_order(a: Hand, b: Hand)
    requires
        a.wf(),
        b.wf(),
        a.value == HandValue::Pair,
        b.value == HandValue::Pair,
    ensures
        spec_pair_or_zero(a.holder) < spec_pair_or_zero(b.holder) ==> spec_hand_lt(a, b),
        spec_pair_or_zero(a.holder) == spec_pair_or_zero(b.holder) && spec_pair_kicker(a.holder)
            < spec_pair_kicker(b.holder) ==> spec_hand_lt(a, b),
{
}

/// Within the straight, straight-flush, flush and high-card classes, hands
/// compare by their card ranks from the highest down.
pub proof fn lemma_rank_lexicographic_order(a: Hand, b: Hand)
    requires
        a.wf(),
        b.wf(),
        a.value == b.value,
        a.value == HandValue::Straight || a.value == HandValue::StraightFlush || a.value
            == HandValue::Flush || a.value == HandValue::HighCard,
    ensures
        a.holder.2.value < b.holder.2.value ==> spec_hand_lt(a, b),
        a.holder.2.value == b.holder.2.value && a.holder.1.value < b.holder.1.value
            ==> spec_hand_lt(a, b),
        a.holder.2.value == b.holder.2.value && a.holder.1.value == b.holder.1.value
            && a.holder.0.value < b.holder.0.value ==> spec_hand_lt(a, b),
{
}

/// The dealer qualification boundary on high-card hands: such a hand
/// qualifies exactly when its top card is a Queen or better.
pub proof fn lemma_qualification_boundary(d: Hand)
    requires
        d.wf(),
        d.value == HandValue::HighCard,
    ensures
        spec_qualifies(d) <==> d.holder.2.value >= 12,
{
}

/// The low-Ace run 2-3-Ace classifies as a straight — a straight flush when
/// the suits agree — never as a high card hand.
pub proof fn lemma_low_ace_straight(h: Hand)
    requires
        h.wf(),
        h.holder.0.value == 2,
        h.holder.1.value == 3,
        h.holder.2.value == 14,
    ensures
        spec_is_flush(h.holder) ==> h.value == HandValue::StraightFlush,
        !spec_is_flush(h.holder) ==> h.value == HandValue::Straight,
{
}

} // verus!
