//! Decks: a selection of six distinct positions in the canonical 52-card
//! layout, split into a player hand (first three) and a dealer hand (last
//! three), plus the outcome engine that turns a deal, a strategy and the
//! previous round's action into a cached `GameResult`.

use vstd::prelude::*;

use rand::seq::SliceRandom;

use crate::components::card::{Card, SUIT};
use crate::components::game_result::GameResult;
use crate::components::hand::{spec_hand_lt, spec_make_hand, spec_qualifies, Hand, HandValue};
use crate::components::strategy::{Action, Strategy, MAX_ANTE};

verus! {

/// The standard random number generator of the rand crate, declared so that
/// deck construction can take one; its state is opaque here.
#[verifier::external_type_specification]
#[verifier::external_body]
pub struct ExStdRng(rand::rngs::StdRng);

/// Position of index `i` inside its suit's block of thirteen.
pub open spec fn spec_index_in_suit(i: int) -> int {
    if i < 13 {
        i
    } else if i < 26 {
        i - 13
    } else if i < 39 {
        i - 26
    } else {
        i - 39
    }
}

/// Suit of index `i` in the canonical layout: four blocks of thirteen, in
/// the order spades, clubs, diamonds, hearts.
pub open spec fn spec_suit_of_index(i: int) -> SUIT {
    if i < 13 {
        SUIT::SPADES
    } else if i < 26 {
        SUIT::CLUBS
    } else if i < 39 {
        SUIT::DIAMONDS
    } else {
        SUIT::HEARTS
    }
}

/// The canonical 52-card layout: each suit's block runs from Ace (14) down
/// to 2, so index 0 is the Ace of spades and index 51 the 2 of hearts.
pub open spec fn spec_base_card(i: int) -> Card {
    Card { value: (14 - spec_index_in_suit(i)) as u8, suit: spec_suit_of_index(i) }
}

/// The card at position `i` of the canonical layout.
fn base_card(i: u8) -> (c: Card)
    requires
        i < 52,
    ensures
        c == spec_base_card(i as int),
{
    let suit = if i < 13 {
        SUIT::SPADES
    } else if i < 26 {
        SUIT::CLUBS
    } else if i < 39 {
        SUIT::DIAMONDS
    } else {
        SUIT::HEARTS
    };
    let pos = if i < 13 {
        i
    } else if i < 26 {
        i - 13
    } else if i < 39 {
        i - 26
    } else {
        i - 39
    };
    Card { value: 14 - pos, suit }
}

/// Distinct positions in the layout hold distinct (rank, suit) cards.
pub proof fn lemma_base_card_injective(i: int, j: int)
    requires
        0 <= i < 52,
        0 <= j < 52,
        i != j,
    ensures
        spec_base_card(i).value != spec_base_card(j).value || spec_base_card(i).suit
            != spec_base_card(j).suit,
{
}

/// Relies on rand's `SliceRandom::partial_shuffle`, which only swaps
/// elements of the slice (a partial Fisher-Yates pass) and returns the
/// shuffled chunk of the requested length; the chunk therefore holds the
/// former contents of six distinct positions of the given slice. Called on
/// the 52 distinct layout positions, the six returned values are distinct
/// and all below 52.
#[verifier::external_body]
fn sample_six_positions(rng: &mut rand::rngs::StdRng) -> (r: [u8; 6])
    ensures
        forall|i: int| 0 <= i < 6 ==> r[i] < 52,
        forall|i: int, j: int| 0 <= i < j < 6 ==> r[i] != r[j],
{
    let mut positions: [u8; 52] = core::array::from_fn(|i| i as u8);
    let (chosen, _) = positions.partial_shuffle(rng, 6);
    let mut r = [0u8; 6];
    r.copy_from_slice(chosen);
    r
}

/// A dealt round: six distinct positions of the canonical layout, and the
/// round's result once it has been computed. The positions never change
/// after construction; the result is computed at most once and is immutable
/// thereafter.
#[derive(Clone, Copy, Debug)]
pub struct Deck {
    order: [u8; 6],
    result: Option<GameResult>,
}

impl Deck {
    /// The six chosen layout positions.
    pub closed spec fn spec_order(self) -> Seq<u8> {
        self.order@
    }

    /// The cached result, if one has been computed.
    pub closed spec fn cached(self) -> Option<GameResult> {
        self.result
    }

    /// Six in-range, pairwise distinct positions.
    pub open spec fn wf(self) -> bool {
        &&& self.spec_order().len() == 6
        &&& forall|i: int| 0 <= i < 6 ==> self.spec_order()[i] < 52
        &&& forall|i: int, j: int| 0 <= i < j < 6 ==> self.spec_order()[i] != self.spec_order()[j]
    }

    /// The player's hand: the cards at the first three chosen positions.
    pub open spec fn spec_player_hand(self) -> Hand {
        spec_make_hand(
            spec_base_card(self.spec_order()[0] as int),
            spec_base_card(self.spec_order()[1] as int),
            spec_base_card(self.spec_order()[2] as int),
        )
    }

    /// The dealer's hand: the cards at the last three chosen positions.
    pub open spec fn spec_dealer_hand(self) -> Hand {
        spec_make_hand(
            spec_base_card(self.spec_order()[3] as int),
            spec_base_card(self.spec_order()[4] as int),
            spec_base_card(self.spec_order()[5] as int),
        )
    }

    /// Draws six distinct positions out of 52, uniformly without
    /// replacement: the first three form the player hand, the last three the
    /// dealer hand.
    pub fn new(rng: &mut rand::rngs::StdRng) -> (d: Deck)
        ensures
            d.wf(),
            d.cached() is None,
    {
        let order = sample_six_positions(rng);
        Deck { order, result: None }
    }

    /// Builds a deck from six explicitly chosen layout positions, for
    /// deterministic deals: `Some` exactly when the positions all lie below
    /// 52 and are pairwise distinct.
    pub fn from_positions(order: [u8; 6]) -> (r: Option<Deck>)
        ensures
            r is Some <==> ((forall|x: int| 0 <= x < 6 ==> order[x] < 52) && (forall|
                x: int,
                y: int,
            | 0 <= x < y < 6 ==> order[x] != order[y])),
            r matches Some(d) ==> d.wf() && d.cached() is None && d.spec_order() == order@,
    {
        let mut i: usize = 0;
        while i < 6
            invariant
                i <= 6,
                forall|x: int| 0 <= x < i ==> order[x] < 52,
                forall|x: int, y: int| 0 <= x < y < i ==> order[x] != order[y],
            decreases 6 - i,
        {
            if order[i] >= 52 {
                return None;
            }
            let mut j: usize = 0;
            while j < i
                invariant
                    j <= i < 6,
                    order[i as int] < 52,
                    forall|x: int| 0 <= x < i ==> order[x] < 52,
                    forall|x: int, y: int| 0 <= x < y < i ==> order[x] != order[y],
                    forall|y: int| 0 <= y < j ==> order[y] != order[i as int],
                decreases i - j,
            {
                if order[j] == order[i] {
                    return None;
                }
                j += 1;
            }
            i += 1;
        }
        Some(Deck { order, result: None })
    }

    fn player_hand(&self) -> (h: Hand)
        requires
            self.wf(),
        ensures
            h == self.spec_player_hand(),
            h.wf(),
    {
        Hand::new(
            [
                base_card(self.order[0]),
                base_card(self.order[1]),
                base_card(self.order[2]),
            ],
        )
    }

    fn dealer_hand(&self) -> (h: Hand)
        requires
            self.wf(),
        ensures
            h == self.spec_dealer_hand(),
            h.wf(),
    {
        Hand::new(
            [
                base_card(self.order[3]),
                base_card(self.order[4]),
                base_card(self.order[5]),
            ],
        )
    }

    /// Projects the deck into its (player, dealer) hands. The projection is
    /// a pure function of the deck, so repeated calls return hands of
    /// identical composition.
    pub fn deal_both(&self) -> (r: (Hand, Hand))
        requires
            self.wf(),
        ensures
            r.0 == self.spec_player_hand(),
            r.1 == self.spec_dealer_hand(),
            r.0.wf(),
            r.1.wf(),
    {
        (self.player_hand(), self.dealer_hand())
    }
}

impl Default for Deck {
    /// With no randomness supplied, the deck resolves to the first six
    /// positions of the canonical layout.
    fn default() -> (d: Self)
        ensures
            d.wf(),
            d.cached() is None,
            forall|i: int| 0 <= i < 6 ==> d.spec_order()[i] == i,
    {
        Self { order: [0, 1, 2, 3, 4, 5], result: None }
    }
}

/// A deal never repeats a card: across the player and dealer hands of one
/// well-formed deck, no (rank, suit) pair occurs twice.
pub proof fn lemma_deal_no_duplicates(dk: Deck)
    requires
        dk.wf(),
    ensures
        ({
            let p = dk.spec_player_hand();
            let d = dk.spec_dealer_hand();
            let cs = seq![p.holder.0, p.holder.1, p.holder.2, d.holder.0, d.holder.1, d.holder.2];
            forall|i: int, j: int|
                0 <= i < j < 6 ==> cs[i].value != cs[j].value || cs[i].suit != cs[j].suit
        }),
{
    let o = dk.spec_order();
    let b0 = spec_base_card(o[0] as int);
    let b1 = spec_base_card(o[1] as int);
    let b2 = spec_base_card(o[2] as int);
    let b3 = spec_base_card(o[3] as int);
    let b4 = spec_base_card(o[4] as int);
    let b5 = spec_base_card(o[5] as int);
    assert forall|i: int, j: int| 0 <= i < j < 6 implies spec_base_card(o[i] as int).value
        != spec_base_card(o[j] as int).value || spec_base_card(o[i] as int).suit != spec_base_card(
        o[j] as int,
    ).suit by {
        lemma_base_card_injective(o[i] as int, o[j] as int);
    }
    crate::components::hand::lemma_sort3_permutes(b0, b1, b2);
    crate::components::hand::lemma_sort3_permutes(b3, b4, b5);
}

/// The ante actually at stake this round: the strategy's base ante times the
/// multiplier the inherited action directs — doubled for `Raise2x`, halved
/// (integer division) for `Lower2x`, the base ante otherwise.
pub open spec fn spec_effective_ante(ante: i64, action: Action) -> int {
    match action {
        Action::BackToBase => ante as int,
        Action::Lower2x => ante as int / 2,
        Action::Raise2x => 2 * ante as int,
        Action::NoChange => ante as int,
    }
}

/// Payout multiplier on the play bet for a winning player hand, by class.
pub open spec fn spec_win_multiplier(v: HandValue) -> int {
    match v {
        HandValue::RoyalFlush => 5,
        HandValue::StraightFlush => 5,
        HandValue::ThreeOfAKind => 3,
        _ => 1,
    }
}

/// The result of one round, as a value:
/// - the player plays iff their hand's key strictly exceeds the strategy's
///   threshold hand's key; folding forfeits the ante and takes the
///   after-loss action;
/// - a playing player wins iff their key strictly exceeds the dealer's; a
///   tie is not a win;
/// - a win pays the play bet at the class multiplier, plus the ante again
///   when the dealer qualified (the ante pushes against a non-qualifying
///   dealer);
/// - a played loss forfeits both ante and play bet.
pub open spec fn spec_game_result(p: Hand, d: Hand, strat: Strategy, action: Action) -> GameResult {
    let ante = spec_effective_ante(strat.ante, action);
    let played = spec_hand_lt(strat.minimal_playable_hand, p);
    let won = played && spec_hand_lt(d, p);
    let qual = spec_qualifies(d);
    GameResult {
        played,
        dealer_qualified: qual,
        player_won: won,
        outcome: (if !played {
            -ante
        } else if won {
            (spec_win_multiplier(p.value) + if qual {
                1int
            } else {
                0int
            }) * ante
        } else {
            -2 * ante
        }) as i64,
        ante_bet: ante as i64,
        next_action: if won {
            strat.on_win
        } else {
            strat.on_loss
        },
    }
}

impl Deck {
    /// Computes the round's result on the first call that supplies a
    /// strategy and an inherited action, caches it, and returns the cached
    /// result on every later call — even one made with different inputs.
    /// Calling without valid inputs before a result was ever computed is a
    /// precondition violation.
    pub fn get_game_result(&mut self, strat: Option<&Strategy>, action: Option<Action>) -> (r:
        GameResult)
        requires
            old(self).wf(),
            old(self).cached() is None ==> (strat matches Some(s) && s.wf()) && action is Some,
        ensures
            final(self).wf(),
            final(self).spec_order() == old(self).spec_order(),
            final(self).cached() == Some(r),
            old(self).cached() matches Some(prev) ==> r == prev,
            old(self).cached() is None ==> (strat matches Some(s) && action matches Some(a)
                ==> r == spec_game_result(
                old(self).spec_player_hand(),
                old(self).spec_dealer_hand(),
                *s,
                a,
            )),
    {
        if self.result.is_none() && strat.is_some() && action.is_some() {
            let st = strat.unwrap();
            let act = action.unwrap();
            let base = st.ante();
            let ante = match act {
                Action::BackToBase => base,
                Action::Lower2x => base / 2,
                Action::Raise2x => 2 * base,
                Action::NoChange => base,
            };
            let (p, d) = self.deal_both();
            let played = p > *st.minimal_playable_hand();
            let won = played && p > d;
            let dk = d.key();
            let qual = dk.0.weight() > 0 || dk.1 > 12 || (dk.1 == 12 && (dk.2 > 0 || (dk.2 == 0
                && dk.3 > 0)));
            let next_action = if won {
                st.on_win()
            } else {
                st.on_loss()
            };
            let out = if !played {
                -ante
            } else if won {
                let mult: i64 = match p.get_hand_value() {
                    HandValue::RoyalFlush => 5,
                    HandValue::StraightFlush => 5,
                    HandValue::ThreeOfAKind => 3,
                    _ => 1,
                };
                let bonus: i64 = if qual {
                    1
                } else {
                    0
                };
                proof {
                    assert((mult + bonus) * ante <= 6 * 2 * MAX_ANTE && (mult + bonus) * ante
                        >= 0) by (nonlinear_arith)
                        requires
                            0 <= ante <= 2 * MAX_ANTE,
                            1 <= mult + bonus <= 6,
                    ;
                }
                (mult + bonus) * ante
            } else {
                -2 * ante
            };
            let gr = GameResult::new(played, qual, won, out, ante, next_action);
            self.result = Some(gr);
        }
        match self.result {
            Some(r) => r,
            Option::None => unreached(),
        }
    }
}

} // verus!
