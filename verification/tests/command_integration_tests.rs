use nutrition_helper::models::{LocationType, SlotType, TagCategory};

#[test]
fn test_enum_database_conversion() {
    // Test enum conversion functions
    assert_eq!(SlotType::Breakfast.to_db_string(), "breakfast");
    assert_eq!(LocationType::Home.to_db_string(), "home");
    assert_eq!(TagCategory::Ingredient.to_db_string(), "ingredient");

    // Test from_db_string
    assert_eq!(
        SlotType::from_db_string("breakfast").ok(),
        Some(SlotType::Breakfast)
    );
    assert_eq!(
        LocationType::from_db_string("home").ok(),
        Some(LocationType::Home)
    );
    assert_eq!(
        TagCategory::from_db_string("ingredient").ok(),
        Some(TagCategory::Ingredient)
    );
}

#[test]
fn command_integration_tests_test_slot_type_all() {
    // Test that all slot types are included
    let all_slots = SlotType::all();
    assert_eq!(all_slots.len(), 5);
    assert!(all_slots.contains(&SlotType::Breakfast));
    assert!(all_slots.contains(&SlotType::MorningSnack));
    assert!(all_slots.contains(&SlotType::Lunch));
    assert!(all_slots.contains(&SlotType::AfternoonSnack));
    assert!(all_slots.contains(&SlotType::Dinner));
}

#[test]
fn command_integration_tests_test_location_type_compatibility() {
    // Test location compatibility logic
    let home = LocationType::Home;
    let office = LocationType::Office;

    assert!(home.is_compatible_with(home));
    assert!(!home.is_compatible_with(office));
}

#[test]
fn test_integration_coverage_documented() {
    // The commands themselves are exercised where the store is at hand.
}
