//! The card data model: the `CardKind` and `CardRarity` enumerations, the
//! immutable `Card` record with its rendering, and the `CardBuilder` that
//! assembles a card from five optional slots.

use vstd::prelude::*;
use vstd::string::StringExecFns;

verus! {

/// The functional category of a card.
#[derive(PartialEq, Eq, Structural, Copy, Clone, Debug)]
pub enum CardKind {
    Asset,
    Proficiency,
    Ability,
}

/// The scarcity tier of a card.
#[derive(PartialEq, Eq, Structural, Copy, Clone, Debug)]
pub enum CardRarity {
    Common,
    Uncommon,
    Rare,
}

/// The text a kind renders to: its variant name, verbatim.
pub open spec fn kind_text(k: CardKind) -> Seq<char> {
    match k {
        CardKind::Asset => "Asset"@,
        CardKind::Proficiency => "Proficiency"@,
        CardKind::Ability => "Ability"@,
    }
}

/// The text a rarity renders to: its variant name, verbatim.
pub open spec fn rarity_text(r: CardRarity) -> Seq<char> {
    match r {
        CardRarity::Common => "Common"@,
        CardRarity::Uncommon => "Uncommon"@,
        CardRarity::Rare => "Rare"@,
    }
}

impl CardKind {
    /// Renders the kind as its variant name.
    pub fn render(&self) -> (r: &'static str)
        ensures
            r@ == kind_text(*self),
    {
        match *self {
            CardKind::Asset => "Asset",
            CardKind::Proficiency => "Proficiency",
            CardKind::Ability => "Ability",
        }
    }
}

impl CardRarity {
    /// Renders the rarity as its variant name.
    pub fn render(&self) -> (r: &'static str)
        ensures
            r@ == rarity_text(*self),
    {
        match *self {
            CardRarity::Common => "Common",
            CardRarity::Uncommon => "Uncommon",
            CardRarity::Rare => "Rare",
        }
    }
}

/// The atomic collectible entity. Once built, a card is never mutated.
#[derive(Debug, PartialEq)]
pub struct Card {
    pub id: String,
    pub name: String,
    pub kind: CardKind,
    pub rarity: CardRarity,
    pub description: String,
}

/// The full rendering of one card:
/// `(<id>) <Rarity> Card: <name> - <Kind>`, a line break, the description,
/// and a blank line.
pub open spec fn card_text(c: Card) -> Seq<char> {
    "("@ + c.id@ + ") "@ + rarity_text(c.rarity) + " Card: "@ + c.name@ + " - "@
        + kind_text(c.kind) + "\n"@ + c.description@ + "\n\n"@
}

impl Card {
    /// Renders the card in its display format.
    pub fn render(&self) -> (r: String)
        ensures
            r@ == card_text(*self),
    {
        let mut out = String::new();
        out.append("(");
        out.append(self.id.as_str());
        out.append(") ");
        out.append(self.rarity.render());
        out.append(" Card: ");
        out.append(self.name.as_str());
        out.append(" - ");
        out.append(self.kind.render());
        out.append("\n");
        out.append(self.description.as_str());
        out.append("\n\n");
        proof {
            assert(out@ =~= card_text(*self));
        }
        out
    }
}

/// The failure reported by `CardBuilder::build`: one variant per missing slot.
#[derive(Debug, PartialEq, Eq, Structural, Copy, Clone)]
pub enum CardBuilderError {
    IdMissing,
    NameMissing,
    KindMissing,
    RarityMissing,
    DescriptionMissing,
}

/// Staged construction of a `Card`: five optional slots, each filled by its
/// setter, validated for completeness by `build`.
pub struct CardBuilder {
    pub id: Option<String>,
    pub name: Option<String>,
    pub kind: Option<CardKind>,
    pub rarity: Option<CardRarity>,
    pub description: Option<String>,
}

impl CardBuilder {
    /// All five slots are occupied.
    pub open spec fn complete(self) -> bool {
        &&& self.id is Some
        &&& self.name is Some
        &&& self.kind is Some
        &&& self.rarity is Some
        &&& self.description is Some
    }

    /// The earliest unoccupied slot, in the fixed order
    /// id, name, kind, rarity, description.
    pub open spec fn first_missing(self) -> CardBuilderError {
        if self.id is None {
            CardBuilderError::IdMissing
        } else if self.name is None {
            CardBuilderError::NameMissing
        } else if self.kind is None {
            CardBuilderError::KindMissing
        } else if self.rarity is None {
            CardBuilderError::RarityMissing
        } else {
            CardBuilderError::DescriptionMissing
        }
    }

    /// The card a complete builder produces: each field copied from its slot.
    pub open spec fn built_card(self) -> Card {
        Card {
            id: self.id->0,
            name: self.name->0,
            kind: self.kind->0,
            rarity: self.rarity->0,
            description: self.description->0,
        }
    }

    /// The outcome of `build` as a function of the builder's state.
    pub open spec fn build_result(self) -> Result<Card, CardBuilderError> {
        if self.complete() {
            Ok(self.built_card())
        } else {
            Err(self.first_missing())
        }
    }

    /// A builder with every slot empty.
    pub fn new() -> (b: CardBuilder)
        ensures
            b.id is None,
            b.name is None,
            b.kind is None,
            b.rarity is None,
            b.description is None,
    {
        CardBuilder { id: None, name: None, kind: None, rarity: None, description: None }
    }

    /// Records the id; the latest value wins. The other slots are untouched.
    pub fn set_id(&mut self, id: String) -> (r: &mut Self)
        ensures
            *r == (CardBuilder {
                id: Some(id),
                name: old(self).name,
                kind: old(self).kind,
                rarity: old(self).rarity,
                description: old(self).description,
            }),
            *final(self) == *final(r),
    {
        self.id = Some(id);
        self
    }

    /// Records the name; the latest value wins. The other slots are untouched.
    pub fn set_name(&mut self, name: String) -> (r: &mut Self)
        ensures
            *r == (CardBuilder {
                id: old(self).id,
                name: Some(name),
                kind: old(self).kind,
                rarity: old(self).rarity,
                description: old(self).description,
            }),
            *final(self) == *final(r),
    {
        self.name = Some(name);
        self
    }

    /// Records the kind; the latest value wins. The other slots are untouched.
    pub fn set_kind(&mut self, kind: CardKind) -> (r: &mut Self)
        ensures
            *r == (CardBuilder {
                id: old(self).id,
                name: old(self).name,
                kind: Some(kind),
                rarity: old(self).rarity,
                description: old(self).description,
            }),
            *final(self) == *final(r),
    {
        self.kind = Some(kind);
        self
    }

    /// Records the rarity; the latest value wins. The other slots are untouched.
    pub fn set_rarity(&mut self, rarity: CardRarity) -> (r: &mut Self)
        ensures
            *r == (CardBuilder {
                id: old(self).id,
                name: old(self).name,
                kind: old(self).kind,
                rarity: Some(rarity),
                description: old(self).description,
            }),
            *final(self) == *final(r),
    {
        self.rarity = Some(rarity);
        self
    }

    /// Records the description; the latest value wins. The other slots are
    /// untouched.
    pub fn set_description(&mut self, description: String) -> (r: &mut Self)
        ensures
            *r == (CardBuilder {
                id: old(self).id,
                name: old(self).name,
                kind: old(self).kind,
                rarity: old(self).rarity,
                description: Some(description),
            }),
            *final(self) == *final(r),
    {
        self.description = Some(description);
        self
    }

    /// Produces the card if every slot is occupied; otherwise reports the
    /// earliest missing slot. The builder itself is untouched and reusable.
    pub fn build(&self) -> (r: Result<Card, CardBuilderError>)
        ensures
            r == self.build_result(),
    {
        let id = match &self.id {
            Some(v) => v.clone(),
            None => {
                return Err(CardBuilderError::IdMissing);
            },
        };
        let name = match &self.name {
            Some(v) => v.clone(),
            None => {
                return Err(CardBuilderError::NameMissing);
            },
        };
        let kind = match &self.kind {
            Some(v) => *v,
            None => {
                return Err(CardBuilderError::KindMissing);
            },
        };
        let rarity = match &self.rarity {
            Some(v) => *v,
            None => {
                return Err(CardBuilderError::RarityMissing);
            },
        };
        let description = match &self.description {
            Some(v) => v.clone(),
            None => {
                return Err(CardBuilderError::DescriptionMissing);
            },
        };
        Ok(Card { id, name, kind, rarity, description })
    }
}

/// Builder totality: however a builder reached a state with all five slots
/// occupied — any order of setter calls, with the last value of each slot
/// winning — `build` succeeds, and the card carries exactly those five values.
pub proof fn lemma_builder_totality(
    b: CardBuilder,
    id: String,
    name: String,
    kind: CardKind,
    rarity: CardRarity,
    description: String,
)
    requires
        b.id == Some(id),
        b.name == Some(name),
        b.kind == Some(kind),
        b.rarity == Some(rarity),
        b.description == Some(description),
    ensures
        b.complete(),
        b.build_result() == Ok::<Card, CardBuilderError>(
            (Card { id, name, kind, rarity, description }),
        ),
{
}

/// Builder missing-field order: an incomplete builder fails with the variant
/// of the earliest unoccupied slot, checked in the order id, name, kind,
/// rarity, description.
pub proof fn lemma_builder_missing_order(b: CardBuilder)
    requires
        !b.complete(),
    ensures
        b.build_result() is Err,
        b.id is None ==> b.build_result() == Err::<Card, CardBuilderError>(
            CardBuilderError::IdMissing,
        ),
        b.id is Some && b.name is None ==> b.build_result() == Err::<Card, CardBuilderError>(
            CardBuilderError::NameMissing,
        ),
        b.id is Some && b.name is Some && b.kind is None ==> b.build_result() == Err::<
            Card,
            CardBuilderError,
        >(CardBuilderError::KindMissing),
        b.id is Some && b.name is Some && b.kind is Some && b.rarity is None ==> b.build_result()
            == Err::<Card, CardBuilderError>(CardBuilderError::RarityMissing),
        b.id is Some && b.name is Some && b.kind is Some && b.rarity is Some && b.description
            is None ==> b.build_result() == Err::<Card, CardBuilderError>(
            CardBuilderError::DescriptionMissing,
        ),
{
}

/// Builder re-use: the outcome of `build` is a function of the builder's
/// state alone, so building twice from one complete builder yields equal
/// cards.
pub proof fn lemma_build_repeatable(b: CardBuilder, c1: Card, c2: Card)
    requires
        b.build_result() == Ok::<Card, CardBuilderError>(c1),
        b.build_result() == Ok::<Card, CardBuilderError>(c2),
    ensures
        c1 == c2,
{
}

} // verus!
