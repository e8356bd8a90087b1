//! The randomized card factory: a fresh identifier, a random kind, a
//! two-word name drawn from a fixed vocabulary, and filler prose for the
//! description, assembled through the builder.

use vstd::prelude::*;
use crate::card::{Card, CardBuilder, CardKind, CardRarity};
use rand::Rng;
use vstd::pervasive::unreached;

verus! {

/// An identifier character: ASCII alphanumeric, `[0-9A-Za-z]`.
pub open spec fn is_id_char(c: char) -> bool {
    ||| '0' <= c && c <= '9'
    ||| 'A' <= c && c <= 'Z'
    ||| 'a' <= c && c <= 'z'
}

/// A well-shaped card identifier: exactly ten alphanumeric characters.
pub open spec fn is_card_id(s: Seq<char>) -> bool {
    s.len() == 10 && (forall|i: int| 0 <= i < s.len() ==> is_id_char(#[trigger] s[i]))
}

/// The sentence the adjective word-generator learns.
pub open spec fn adjective_vocabulary() -> Seq<char> {
    "powerful mystic agile deceitful masterful trespassing eletric fiery"@
}

/// The sentence the subjective word-generator learns.
pub open spec fn subjective_vocabulary() -> Seq<char> {
    "smash beam ball shot hit slash strike attack"@
}

/// An adjective as the word-generator emits it: a word of the adjective
/// vocabulary with its first letter capitalized.
pub open spec fn is_adjective_word(w: Seq<char>) -> bool {
    ||| w == "Powerful"@
    ||| w == "Mystic"@
    ||| w == "Agile"@
    ||| w == "Deceitful"@
    ||| w == "Masterful"@
    ||| w == "Trespassing"@
    ||| w == "Eletric"@
    ||| w == "Fiery"@
}

/// A subjective as the word-generator emits it: a word of the subjective
/// vocabulary with its first letter capitalized.
pub open spec fn is_subjective_word(w: Seq<char>) -> bool {
    ||| w == "Smash"@
    ||| w == "Beam"@
    ||| w == "Ball"@
    ||| w == "Shot"@
    ||| w == "Hit"@
    ||| w == "Slash"@
    ||| w == "Strike"@
    ||| w == "Attack"@
}

/// A well-shaped card name: one adjective, one space, one subjective.
pub open spec fn is_card_name(n: Seq<char>) -> bool {
    exists|a: Seq<char>, s: Seq<char>|
        #![trigger a + " "@ + s]
        is_adjective_word(a) && is_subjective_word(s) && n == a + " "@ + s
}

/// The filler prose the lorem-ipsum source produces for a word count.
pub uninterp spec fn lorem_text(n: usize) -> Seq<char>;

/// The shape every factory-made card has: a ten-character alphanumeric
/// identifier, a two-word name from the fixed vocabularies, and twenty-five
/// words of non-empty filler prose.
pub open spec fn generated_card(c: Card) -> bool {
    &&& is_card_id(c.id@)
    &&& is_card_name(c.name@)
    &&& c.description@ == lorem_text(25)
    &&& c.description@.len() > 0
}

/// The rarity each slot of a fresh pack is generated with.
pub open spec fn pack_rarities() -> Seq<CardRarity> {
    seq![
        CardRarity::Common,
        CardRarity::Common,
        CardRarity::Common,
        CardRarity::Common,
        CardRarity::Uncommon,
        CardRarity::Uncommon,
        CardRarity::Rare,
    ]
}

/// Relies on rand's `Alphanumeric` distribution: every sample is one of the
/// 62 ASCII alphanumeric characters, and the sample stream never ends.
#[verifier::external_body]
fn random_alphanumeric(len: usize) -> (r: String)
    ensures
        r@.len() == len as int,
        forall|i: int| 0 <= i < r@.len() ==> is_id_char(#[trigger] r@[i]),
{
    rand::thread_rng()
        .sample_iter(&rand::distributions::Alphanumeric)
        .take(len)
        .map(char::from)
        .collect()
}

/// Relies on rand's `Rng::gen_range`: the result lies in the given range;
/// the call panics only on an empty range, which the precondition rules out.
#[verifier::external_body]
fn random_index(bound: u32) -> (r: u32)
    requires
        1 <= bound,
    ensures
        r < bound,
{
    rand::thread_rng().gen_range(0..bound)
}

/// What the word-generator hands back for a learned vocabulary: one of the
/// vocabulary's words as emitted — capitalized, with a closing `'.'`.
pub open spec fn generated_word(vocabulary: Seq<char>, r: Seq<char>) -> bool {
    &&& vocabulary == adjective_vocabulary() ==> (exists|w: Seq<char>|
        is_adjective_word(w) && r == w + seq!['.'])
    &&& vocabulary == subjective_vocabulary() ==> (exists|w: Seq<char>|
        is_subjective_word(w) && r == w + seq!['.'])
}

/// Relies on lipsum's `MarkovChain`: `learn` splits the sentence on
/// whitespace, and generating a single word with `generate_with_rng` emits
/// one of the learned words, capitalized and with a closing `'.'` appended
/// by its sentence formatting.
#[verifier::external_body]
fn markov_word(vocabulary: &str) -> (r: String)
    requires
        vocabulary@ == adjective_vocabulary() || vocabulary@ == subjective_vocabulary(),
    ensures
        generated_word(vocabulary@, r@),
{
    let mut chain = lipsum::MarkovChain::new();
    chain.learn(vocabulary);
    chain.generate_with_rng(rand::thread_rng(), 1)
}

/// Relies on `lipsum::lipsum`: it samples its Markov chain with a fixed-seed
/// generator, so the text is a function of the word count alone, and for a
/// positive count the text begins with "Lorem ipsum", so it is not empty.
#[verifier::external_body]
fn filler_text(n: usize) -> (r: String)
    ensures
        r@ == lorem_text(n),
        n >= 1 ==> r@.len() > 0,
{
    lipsum::lipsum(n)
}

/// Draws one word from the given vocabulary and strips the closing `'.'`
/// the word-generator appends.
fn name_word(vocabulary: &str) -> (w: String)
    requires
        vocabulary@ == adjective_vocabulary() || vocabulary@ == subjective_vocabulary(),
    ensures
        vocabulary@ == adjective_vocabulary() ==> is_adjective_word(w@),
        vocabulary@ == subjective_vocabulary() ==> is_subjective_word(w@),
{
    let raw = markov_word(vocabulary);
    proof {
        if vocabulary@ == adjective_vocabulary() {
            let a = choose|a: Seq<char>| is_adjective_word(a) && raw@ == a + seq!['.'];
            assert(raw@.len() == a.len() + 1);
        }
        if vocabulary@ == subjective_vocabulary() {
            let s = choose|s: Seq<char>| is_subjective_word(s) && raw@ == s + seq!['.'];
            assert(raw@.len() == s.len() + 1);
        }
        assert(raw@.len() >= 1);
    }
    let n = raw.as_str().unicode_len();
    let stripped = raw.as_str().substring_char(0, n - 1);
    proof {
        if vocabulary@ == adjective_vocabulary() {
            let a = choose|a: Seq<char>| is_adjective_word(a) && raw@ == a + seq!['.'];
            assert(stripped@ =~= a);
        }
        if vocabulary@ == subjective_vocabulary() {
            let s = choose|s: Seq<char>| is_subjective_word(s) && raw@ == s + seq!['.'];
            assert(stripped@ =~= s);
        }
    }
    let mut w = String::new();
    w.append(stripped);
    w
}

impl Card {
    /// Produces a fresh card of the given rarity: a ten-character
    /// alphanumeric identifier, a uniformly random kind, a two-word name
    /// from the fixed vocabularies, and filler prose as description.
    pub fn random(rarity: CardRarity) -> (c: Card)
        ensures
            c.rarity == rarity,
            generated_card(c),
    {
        let id = random_alphanumeric(10);
        let selector = random_index(3);
        let kind = if selector == 0 {
            CardKind::Asset
        } else if selector == 1 {
            CardKind::Proficiency
        } else {
            CardKind::Ability
        };
        let adjective = name_word("powerful mystic agile deceitful masterful trespassing eletric fiery");
        let subjective = name_word("smash beam ball shot hit slash strike attack");
        let mut name = adjective;
        name.append(" ");
        name.append(subjective.as_str());
        proof {
            assert(is_card_name(name@));
        }
        let description = filler_text(25);
        let mut builder = CardBuilder::new();
        let built = builder
            .set_id(id)
            .set_description(description)
            .set_kind(kind)
            .set_rarity(rarity)
            .set_name(name)
            .build();
        match built {
            Ok(c) => c,
            Err(_) => unreached(),
        }
    }
}

} // verus!
