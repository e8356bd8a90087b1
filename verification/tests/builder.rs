use card_packs::card::{Card, CardBuilder, CardBuilderError, CardKind, CardRarity};

#[test]
fn builder_chaining() {
    let id = "1".to_string();
    let description = "description".to_string();
    let name = "Test Card".to_string();

    let result = CardBuilder::new()
        .set_id(id)
        .set_description(description)
        .set_kind(CardKind::Asset)
        .set_name(name)
        .build();

    assert!(matches!(result, Err(CardBuilderError::RarityMissing)));
}

#[test]
fn builder_non_chaining() {
    let id = "1".to_string();
    let description = "description".to_string();
    let name = "Test Card".to_string();

    let mut builder = CardBuilder::new();

    let builder = builder
        .set_id(id)
        .set_description(description)
        .set_kind(CardKind::Asset)
        .set_name(name);

    let result = builder.build();

    assert!(matches!(result, Err(CardBuilderError::RarityMissing)));
}

#[test]
fn complete_build_copies_every_field() {
    let card = CardBuilder::new()
        .set_id("1".to_string())
        .set_name("Test Card".to_string())
        .set_kind(CardKind::Asset)
        .set_rarity(CardRarity::Common)
        .set_description("description".to_string())
        .build()
        .unwrap();

    assert_eq!(card.id, "1");
    assert_eq!(card.name, "Test Card");
    assert_eq!(card.kind, CardKind::Asset);
    assert_eq!(card.rarity, CardRarity::Common);
    assert_eq!(card.description, "description");
}

#[test]
fn missing_rarity_reported() {
    let result = CardBuilder::new()
        .set_id("1".to_string())
        .set_description("d".to_string())
        .set_kind(CardKind::Asset)
        .set_name("n".to_string())
        .build();

    assert!(matches!(result, Err(CardBuilderError::RarityMissing)));
}

#[test]
fn setter_order_does_not_matter() {
    let first = CardBuilder::new()
        .set_description("description".to_string())
        .set_rarity(CardRarity::Rare)
        .set_name("Test Card".to_string())
        .set_id("1".to_string())
        .set_kind(CardKind::Ability)
        .build()
        .unwrap();

    let second = CardBuilder::new()
        .set_id("1".to_string())
        .set_name("Test Card".to_string())
        .set_kind(CardKind::Ability)
        .set_rarity(CardRarity::Rare)
        .set_description("description".to_string())
        .build()
        .unwrap();

    assert_eq!(first, second);
}

#[test]
fn last_set_value_wins() {
    let card = CardBuilder::new()
        .set_id("first".to_string())
        .set_name("n".to_string())
        .set_kind(CardKind::Asset)
        .set_rarity(CardRarity::Common)
        .set_description("d".to_string())
        .set_id("second".to_string())
        .set_kind(CardKind::Proficiency)
        .build()
        .unwrap();

    assert_eq!(card.id, "second");
    assert_eq!(card.kind, CardKind::Proficiency);
}

#[test]
fn build_twice_yields_equal_cards() {
    let mut builder = CardBuilder::new();
    builder
        .set_id("1".to_string())
        .set_name("n".to_string())
        .set_kind(CardKind::Asset)
        .set_rarity(CardRarity::Uncommon)
        .set_description("d".to_string());

    let first: Card = builder.build().unwrap();
    let second: Card = builder.build().unwrap();

    assert_eq!(first, second);
}

#[test]
fn empty_builder_reports_id_first() {
    let result = CardBuilder::new().build();
    assert!(matches!(result, Err(CardBuilderError::IdMissing)));
}

#[test]
fn missing_name_reported() {
    let result = CardBuilder::new().set_id("1".to_string()).build();
    assert!(matches!(result, Err(CardBuilderError::NameMissing)));
}

#[test]
fn missing_kind_reported() {
    let result = CardBuilder::new()
        .set_id("1".to_string())
        .set_name("n".to_string())
        .build();
    assert!(matches!(result, Err(CardBuilderError::KindMissing)));
}

#[test]
fn missing_description_reported() {
    let result = CardBuilder::new()
        .set_id("1".to_string())
        .set_name("n".to_string())
        .set_kind(CardKind::Asset)
        .set_rarity(CardRarity::Common)
        .build();
    assert!(matches!(result, Err(CardBuilderError::DescriptionMissing)));
}

#[test]
fn earliest_missing_slot_wins() {
    let result = CardBuilder::new()
        .set_description("d".to_string())
        .set_rarity(CardRarity::Rare)
        .build();
    assert!(matches!(result, Err(CardBuilderError::IdMissing)));
}

#[test]
fn builder_usable_after_failure() {
    let mut builder = CardBuilder::new();
    builder
        .set_id("1".to_string())
        .set_name("n".to_string())
        .set_kind(CardKind::Asset)
        .set_rarity(CardRarity::Common);

    assert!(matches!(
        builder.build(),
        Err(CardBuilderError::DescriptionMissing)
    ));

    builder.set_description("d".to_string());
    let card = builder.build().unwrap();
    assert_eq!(card.description, "d");
}
