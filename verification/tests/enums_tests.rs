use nutrition_helper::models::{LocationType, SlotType, TagCategory};

#[test]
fn enums_test_slot_type_all() {
    let slots = SlotType::all();
    assert_eq!(slots.len(), 5);
    assert_eq!(slots[0], SlotType::Breakfast);
    assert_eq!(slots[4], SlotType::Dinner);
}

#[test]
fn test_slot_type_db_conversion() {
    assert_eq!(SlotType::Breakfast.to_db_string(), "breakfast");
    assert_eq!(SlotType::MorningSnack.to_db_string(), "morning_snack");

    assert_eq!(SlotType::from_db_string("lunch").unwrap(), SlotType::Lunch);
    assert!(SlotType::from_db_string("invalid").is_err());
}

#[test]
fn enums_test_location_type_compatibility() {
    assert!(LocationType::Home.is_compatible_with(LocationType::Home));
    assert!(!LocationType::Home.is_compatible_with(LocationType::Office));
    assert!(LocationType::Any.is_compatible_with(LocationType::Home));
    assert!(LocationType::Home.is_compatible_with(LocationType::Any));
}

#[test]
fn test_location_type_db_conversion() {
    assert_eq!(LocationType::Home.to_db_string(), "home");
    assert_eq!(
        LocationType::from_db_string("restaurant").unwrap(),
        LocationType::Restaurant
    );
    assert!(LocationType::from_db_string("invalid").is_err());
}

#[test]
fn test_tag_category_db_conversion() {
    assert_eq!(TagCategory::Ingredient.to_db_string(), "ingredient");
    assert_eq!(
        TagCategory::from_db_string("dietary").unwrap(),
        TagCategory::Dietary
    );
    assert!(TagCategory::from_db_string("invalid").is_err());
}

#[test]
fn slot_type_round_trip_through_db_string() {
    for slot in SlotType::all() {
        assert_eq!(SlotType::from_db_string(slot.to_db_string()), Ok(slot));
    }
    assert_eq!(
        SlotType::from_db_string("brunch"),
        Err("Invalid slot type: brunch".to_string())
    );
    assert_eq!(
        SlotType::from_db_string("Breakfast"),
        Err("Invalid slot type: Breakfast".to_string())
    );
    assert_eq!(SlotType::from_db_string(""), Err("Invalid slot type: ".to_string()));
}

#[test]
fn location_type_round_trip_through_db_string() {
    for location in [
        LocationType::Home,
        LocationType::Office,
        LocationType::Restaurant,
        LocationType::Any,
    ] {
        assert_eq!(LocationType::from_db_string(location.to_db_string()), Ok(location));
    }
    assert_eq!(
        LocationType::from_db_string("moon"),
        Err("Invalid location type: moon".to_string())
    );
}

#[test]
fn tag_category_round_trip_through_db_string() {
    for category in [
        TagCategory::Ingredient,
        TagCategory::Dietary,
        TagCategory::PrepTime,
        TagCategory::Other,
    ] {
        assert_eq!(TagCategory::from_db_string(category.to_db_string()), Ok(category));
    }
    assert_eq!(TagCategory::PrepTime.to_db_string(), "prep_time");
    assert_eq!(
        TagCategory::from_db_string("prep time"),
        Err("Invalid tag category: prep time".to_string())
    );
}

#[test]
fn location_compatibility_is_symmetric_and_any_fits_all() {
    let all = [
        LocationType::Home,
        LocationType::Office,
        LocationType::Restaurant,
        LocationType::Any,
    ];
    for a in all {
        for b in all {
            assert_eq!(a.is_compatible_with(b), b.is_compatible_with(a));
            let expected = a == LocationType::Any || b == LocationType::Any || a == b;
            assert_eq!(a.is_compatible_with(b), expected);
        }
    }
}

#[test]
fn slot_names_are_the_variant_names() {
    assert_eq!(SlotType::Breakfast.name(), "Breakfast");
    assert_eq!(SlotType::MorningSnack.name(), "MorningSnack");
    assert_eq!(SlotType::Lunch.name(), "Lunch");
    assert_eq!(SlotType::AfternoonSnack.name(), "AfternoonSnack");
    assert_eq!(SlotType::Dinner.name(), "Dinner");
    for slot in SlotType::all() {
        assert_eq!(slot.name(), format!("{:?}", slot));
    }
}
