use card_packs::card::{Card, CardBuilder, CardKind, CardRarity};

const ADJECTIVES: [&str; 8] = [
    "Powerful",
    "Mystic",
    "Agile",
    "Deceitful",
    "Masterful",
    "Trespassing",
    "Eletric",
    "Fiery",
];

const SUBJECTIVES: [&str; 8] = [
    "Smash", "Beam", "Ball", "Shot", "Hit", "Slash", "Strike", "Attack",
];

fn assert_well_formed_name(name: &str) {
    let words: Vec<&str> = name.split(' ').collect();
    assert_eq!(words.len(), 2, "name is not two words: {:?}", name);
    assert!(
        ADJECTIVES.contains(&words[0]),
        "first word not in the adjective vocabulary: {:?}",
        words[0]
    );
    assert!(
        SUBJECTIVES.contains(&words[1]),
        "second word not in the subjective vocabulary: {:?}",
        words[1]
    );
    assert!(!name.ends_with('.'));
}

#[test]
fn kind_renders_to_variant_name() {
    assert_eq!(CardKind::Asset.render(), "Asset");
    assert_eq!(CardKind::Proficiency.render(), "Proficiency");
    assert_eq!(CardKind::Ability.render(), "Ability");
}

#[test]
fn rarity_renders_to_variant_name() {
    assert_eq!(CardRarity::Common.render(), "Common");
    assert_eq!(CardRarity::Uncommon.render(), "Uncommon");
    assert_eq!(CardRarity::Rare.render(), "Rare");
}

#[test]
fn card_render_format_is_exact() {
    let card = CardBuilder::new()
        .set_id("abc123XYZ0".to_string())
        .set_name("Mystic Beam".to_string())
        .set_kind(CardKind::Proficiency)
        .set_rarity(CardRarity::Uncommon)
        .set_description("some filler".to_string())
        .build()
        .unwrap();

    assert_eq!(
        card.render(),
        "(abc123XYZ0) Uncommon Card: Mystic Beam - Proficiency\nsome filler\n\n"
    );
}

#[test]
fn random_card_id_shape() {
    for _ in 0..50 {
        let card = Card::random(CardRarity::Common);
        assert_eq!(card.id.len(), 10);
        assert!(card.id.chars().all(|c| c.is_ascii_alphanumeric()));
    }
}

#[test]
fn random_card_keeps_requested_rarity() {
    assert_eq!(Card::random(CardRarity::Common).rarity, CardRarity::Common);
    assert_eq!(
        Card::random(CardRarity::Uncommon).rarity,
        CardRarity::Uncommon
    );
    assert_eq!(Card::random(CardRarity::Rare).rarity, CardRarity::Rare);
}

#[test]
fn random_card_name_shape() {
    for _ in 0..50 {
        let card = Card::random(CardRarity::Rare);
        assert_well_formed_name(&card.name);
    }
}

#[test]
fn random_card_description_is_filler_prose() {
    let card = Card::random(CardRarity::Common);
    assert!(!card.description.is_empty());
    assert_eq!(card.description, lipsum::lipsum(25));
}

#[test]
fn thousand_uncommon_cards() {
    for _ in 0..1000 {
        let card = Card::random(CardRarity::Uncommon);
        assert_eq!(card.rarity, CardRarity::Uncommon);
        assert_eq!(card.id.len(), 10);
        assert!(card.id.chars().all(|c| c.is_ascii_alphanumeric()));
        assert_well_formed_name(&card.name);
    }
}
