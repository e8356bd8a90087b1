//! The pack lifecycle: a sealed bundle of seven freshly generated cards,
//! opened once, then drained card by card through pick-by-identifier.

use vstd::prelude::*;
use vstd::string::StringExecFns;
use crate::card::{card_text, Card, CardRarity};
use crate::factory::{generated_card, pack_rarities};

verus! {

/// An ordered bundle of cards with a sealed/opened state.
///
/// A fresh pack holds exactly seven cards with the rarity distribution
/// `[Common, Common, Common, Common, Uncommon, Uncommon, Rare]`, in that
/// order, and starts sealed.
#[derive(Debug, PartialEq)]
pub struct Pack {
    pub cards: Vec<Card>,
    pub is_open: bool,
}

/// The position of the first card whose identifier equals `id`, or
/// `s.len()` when no card matches.
pub open spec fn first_match(s: Seq<Card>, id: Seq<char>) -> int
    decreases s.len(),
{
    if s.len() <= 0 {
        0
    } else if s[0].id@ == id {
        0
    } else {
        1 + first_match(s.subrange(1, s.len() as int), id)
    }
}

/// `first_match` lies within bounds, lands on a card with the sought
/// identifier whenever one exists, and skips no earlier match.
pub proof fn lemma_first_match_bounds(s: Seq<Card>, id: Seq<char>)
    ensures
        0 <= first_match(s, id) <= s.len(),
        first_match(s, id) < s.len() ==> s[first_match(s, id)].id@ == id,
        forall|j: int| 0 <= j < first_match(s, id) ==> s[j].id@ != id,
    decreases s.len(),
{
    if s.len() > 0 && s[0].id@ != id {
        let t = s.subrange(1, s.len() as int);
        lemma_first_match_bounds(t, id);
        assert(forall|j: int| 0 <= j < first_match(t, id) ==> t[j].id@ != id);
        assert forall|j: int| 0 <= j < first_match(s, id) implies s[j].id@ != id by {
            if j > 0 {
                assert(s[j] == t[j - 1]);
            }
        }
    }
}

/// Pick lands on the index it was aimed at: when the card at `k` carries
/// `id` and no earlier card does, the first match is exactly `k`.
pub proof fn lemma_first_match_at(s: Seq<Card>, id: Seq<char>, k: int)
    requires
        0 <= k < s.len(),
        s[k].id@ == id,
        forall|j: int| 0 <= j < k ==> s[j].id@ != id,
    ensures
        first_match(s, id) == k,
    decreases k,
{
    if k > 0 {
        let t = s.subrange(1, s.len() as int);
        assert(s[0].id@ != id);
        assert(t[k - 1] == s[k]);
        assert forall|j: int| 0 <= j < k - 1 implies t[j].id@ != id by {
            assert(t[j] == s[j + 1]);
        }
        lemma_first_match_at(t, id, k - 1);
    }
}

/// The concatenated renderings of a sequence of cards, in order.
pub open spec fn cards_text(s: Seq<Card>) -> Seq<char>
    decreases s.len(),
{
    if s.len() == 0 {
        Seq::empty()
    } else {
        cards_text(s.drop_last()) + card_text(s.last())
    }
}

/// What a pack renders to: the empty string while sealed, the cards in
/// order once opened.
pub open spec fn pack_text(p: Pack) -> Seq<char> {
    if p.is_open {
        cards_text(p.cards@)
    } else {
        Seq::empty()
    }
}

impl Pack {
    /// Constructs a sealed pack of seven freshly generated cards, in the
    /// rarity order Common, Common, Common, Common, Uncommon, Uncommon,
    /// Rare.
    pub fn new() -> (p: Pack)
        ensures
            !p.is_open,
            p.cards@.len() == 7,
            forall|i: int| 0 <= i < p.cards@.len() ==> generated_card(#[trigger] p.cards@[i]),
            forall|i: int|
                0 <= i < p.cards@.len() ==> p.cards@[i].rarity == #[trigger] pack_rarities()[i],
    {
        let cards = vec![
            Card::random(CardRarity::Common),
            Card::random(CardRarity::Common),
            Card::random(CardRarity::Common),
            Card::random(CardRarity::Common),
            Card::random(CardRarity::Uncommon),
            Card::random(CardRarity::Uncommon),
            Card::random(CardRarity::Rare),
        ];
        Pack { cards, is_open: false }
    }

    /// Opens the pack. Idempotent: the cards are untouched.
    pub fn open(&mut self) -> (r: &Self)
        ensures
            final(self).is_open,
            final(self).cards == old(self).cards,
            *r == *final(self),
    {
        self.is_open = true;
        self
    }

    /// The number of cards currently held.
    pub fn len(&self) -> (n: usize)
        ensures
            n == self.cards@.len(),
    {
        self.cards.len()
    }

    /// Removes and returns the first card whose identifier equals
    /// `card_id`, byte for byte. On a sealed pack, or when no card
    /// matches, yields nothing and leaves the pack unchanged; on a match
    /// the pack shrinks by one and the remaining cards keep their order.
    pub fn pick(&mut self, card_id: String) -> (r: Option<Card>)
        ensures
            !old(self).is_open ==> r is None && *final(self) == *old(self),
            old(self).is_open ==> ({
                let m = first_match(old(self).cards@, card_id@);
                if m < old(self).cards@.len() {
                    &&& r matches Some(c) && c == old(self).cards@[m]
                    &&& final(self).cards@ == old(self).cards@.remove(m)
                    &&& final(self).is_open
                } else {
                    &&& r is None
                    &&& *final(self) == *old(self)
                }
            }),
    {
        if !self.is_open {
            return None;
        }
        let ghost s = self.cards@;
        let mut i: usize = 0;
        while i < self.cards.len()
            invariant
                *self == *old(self),
                old(self).is_open,
                s == self.cards@,
                i <= s.len(),
                forall|j: int| 0 <= j < i ==> s[j].id@ != card_id@,
            decreases s.len() - i,
        {
            if self.cards[i].id == card_id {
                proof {
                    lemma_first_match_at(s, card_id@, i as int);
                }
                let c = self.cards.remove(i);
                return Some(c);
            }
            i += 1;
        }
        proof {
            lemma_first_match_bounds(s, card_id@);
        }
        None
    }

    /// Renders the pack: the empty string while sealed, otherwise each
    /// card's rendering, concatenated in order.
    pub fn render(&self) -> (r: String)
        ensures
            r@ == pack_text(*self),
    {
        let mut out = String::new();
        if !self.is_open {
            return out;
        }
        let mut i: usize = 0;
        while i < self.cards.len()
            invariant
                i <= self.cards@.len(),
                out@ == cards_text(self.cards@.take(i as int)),
            decreases self.cards@.len() - i,
        {
            let rendered = self.cards[i].render();
            out.append(rendered.as_str());
            proof {
                assert(self.cards@.take(i as int + 1).drop_last() =~= self.cards@.take(i as int));
                assert(self.cards@.take(i as int + 1).last() == self.cards@[i as int]);
            }
            i += 1;
        }
        proof {
            assert(self.cards@.take(self.cards@.len() as int) =~= self.cards@);
        }
        out
    }
}

} // verus!
