use nutrition_helper::models::{
    validate_entry, CreateMealOption, CreateMealTemplate, CreateTag, LocationType, Patch,
    SlotType, TagCategory,
};

// A new meal entry, as far as it is checked: the id of its option and its servings.
fn entry_is_valid(meal_option_id: i64, servings: Option<f64>) -> Result<(), String> {
    validate_entry(meal_option_id, matches!(servings, Some(s) if s <= 0.0))
}

#[test]
fn test_create_entry_validation() {
    assert!(entry_is_valid(1, Some(1.0)).is_ok());

    // Invalid meal option ID
    assert!(entry_is_valid(0, Some(1.0)).is_err());

    // Invalid servings
    assert!(entry_is_valid(1, Some(0.0)).is_err());
}

#[test]
fn entry_messages_name_the_first_broken_rule() {
    assert_eq!(validate_entry(1, false), Ok(()));
    assert_eq!(validate_entry(i64::MAX, false), Ok(()));
    assert_eq!(validate_entry(0, false), Err("Invalid meal option ID".to_string()));
    assert_eq!(validate_entry(-3, false), Err("Invalid meal option ID".to_string()));
    assert_eq!(validate_entry(1, true), Err("Servings must be positive".to_string()));
    // Both rules broken: the id is reported.
    assert_eq!(validate_entry(0, true), Err("Invalid meal option ID".to_string()));
    assert_eq!(entry_is_valid(1, None), Ok(()));
    assert_eq!(entry_is_valid(1, Some(1.5)), Ok(()));
    assert_eq!(entry_is_valid(1, Some(-1.0)), Err("Servings must be positive".to_string()));
    assert_eq!(entry_is_valid(0, Some(-1.0)), Err("Invalid meal option ID".to_string()));
}

#[test]
fn test_create_option_validation() {
    let valid = CreateMealOption {
        template_id: 1,
        name: "philadelphia".to_string(),
        description: Some("Philadelphia cream cheese".to_string()),
        nutritional_notes: None,
    };
    assert!(valid.validate().is_ok());

    // Empty name
    let invalid = CreateMealOption {
        template_id: 1,
        name: "".to_string(),
        description: None,
        nutritional_notes: None,
    };
    assert!(invalid.validate().is_err());

    // Invalid template ID
    let invalid = CreateMealOption {
        template_id: 0,
        name: "ricotta".to_string(),
        description: None,
        nutritional_notes: None,
    };
    assert!(invalid.validate().is_err());
}

#[test]
fn test_create_template_validation() {
    let valid = CreateMealTemplate {
        name: "Pane con marmellata".to_string(),
        description: Some("Breakfast bread with jam".to_string()),
        compatible_slots: vec![SlotType::Breakfast, SlotType::MorningSnack],
        location_type: LocationType::Home,
        weekly_limit: Some(3),
    };
    assert!(valid.validate().is_ok());

    // Empty name
    let invalid = CreateMealTemplate {
        name: "".to_string(),
        description: None,
        compatible_slots: vec![SlotType::Breakfast],
        location_type: LocationType::Home,
        weekly_limit: None,
    };
    assert!(invalid.validate().is_err());

    // No compatible slots
    let invalid = CreateMealTemplate {
        name: "Test".to_string(),
        description: None,
        compatible_slots: vec![],
        location_type: LocationType::Home,
        weekly_limit: None,
    };
    assert!(invalid.validate().is_err());

    // Invalid weekly limit (zero)
    let invalid = CreateMealTemplate {
        name: "Test".to_string(),
        description: None,
        compatible_slots: vec![SlotType::Breakfast],
        location_type: LocationType::Home,
        weekly_limit: Some(0),
    };
    assert!(invalid.validate().is_err());

    // Invalid weekly limit (negative)
    let invalid = CreateMealTemplate {
        name: "Test".to_string(),
        description: None,
        compatible_slots: vec![SlotType::Breakfast],
        location_type: LocationType::Home,
        weekly_limit: Some(-1),
    };
    assert!(invalid.validate().is_err());
}

#[test]
fn meal_template_test_slot_compatibility() {
    let template = CreateMealTemplate {
        name: "Yogurt".to_string(),
        description: None,
        compatible_slots: vec![SlotType::Breakfast, SlotType::MorningSnack],
        location_type: LocationType::Any,
        weekly_limit: None,
    };

    assert!(template.compatible_slots.contains(&SlotType::Breakfast));
    assert!(!template.compatible_slots.contains(&SlotType::Dinner));
}

#[test]
fn test_create_tag_validation() {
    let valid_tag = CreateTag {
        name: "pasta_integrale".to_string(),
        display_name: "Pasta Integrale".to_string(),
        category: TagCategory::Ingredient,
        weekly_suggestion: Some(3),
        parent_tag_id: None,
    };
    assert!(valid_tag.validate().is_ok());

    // Empty name
    let invalid = CreateTag {
        name: "".to_string(),
        display_name: "Test".to_string(),
        category: TagCategory::Ingredient,
        weekly_suggestion: None,
        parent_tag_id: None,
    };
    assert!(invalid.validate().is_err());

    // Invalid name format (uppercase)
    let invalid = CreateTag {
        name: "PastaIntegrale".to_string(),
        display_name: "Pasta Integrale".to_string(),
        category: TagCategory::Ingredient,
        weekly_suggestion: None,
        parent_tag_id: None,
    };
    assert!(invalid.validate().is_err());

    // Invalid weekly suggestion (negative)
    let invalid = CreateTag {
        name: "pasta".to_string(),
        display_name: "Pasta".to_string(),
        category: TagCategory::Ingredient,
        weekly_suggestion: Some(-1),
        parent_tag_id: None,
    };
    assert!(invalid.validate().is_err());

    // Valid weekly suggestion of 0 (meaning "avoid")
    let valid_zero = CreateTag {
        name: "pizza".to_string(),
        display_name: "Pizza".to_string(),
        category: TagCategory::Ingredient,
        weekly_suggestion: Some(0),
        parent_tag_id: None,
    };
    assert!(valid_zero.validate().is_ok());
}

fn option(template_id: i64, name: &str) -> CreateMealOption {
    CreateMealOption {
        template_id,
        name: name.to_string(),
        description: None,
        nutritional_notes: None,
    }
}

#[test]
fn create_option_messages_name_the_first_broken_rule() {
    assert_eq!(option(1, "ricotta").validate(), Ok(()));
    assert_eq!(
        option(1, "").validate(),
        Err("Option name cannot be empty".to_string())
    );
    assert_eq!(
        option(1, " \t\n").validate(),
        Err("Option name cannot be empty".to_string())
    );
    // A no-break space and an ideographic space are whitespace too.
    assert_eq!(
        option(1, "\u{a0}\u{3000}").validate(),
        Err("Option name cannot be empty".to_string())
    );
    assert_eq!(
        option(0, "ricotta").validate(),
        Err("Invalid template ID".to_string())
    );
    assert_eq!(
        option(-7, "ricotta").validate(),
        Err("Invalid template ID".to_string())
    );
    // Both rules broken: the name is reported.
    assert_eq!(
        option(0, "   ").validate(),
        Err("Option name cannot be empty".to_string())
    );
    // Whitespace around a name does not make it blank.
    assert_eq!(option(1, "  ricotta ").validate(), Ok(()));
    assert_eq!(option(i64::MAX, "x").validate(), Ok(()));
}

#[test]
fn blank_names_are_exactly_what_trimming_empties() {
    let samples = [
        "", " ", "\t", "\n", "\r\n", "\u{b}", "\u{c}", "\u{85}", "\u{a0}", "\u{1680}",
        "\u{2000}", "\u{200a}", "\u{2028}", "\u{2029}", "\u{202f}", "\u{205f}", "\u{3000}",
        "\u{200b}", "\u{180e}", "\u{feff}", "a", " a", "a ", "\u{1f}", "\u{8}", "\u{e}",
        "\u{1fff}", "\u{200b} ", "_", "\u{2001}\u{2002}\u{2003}",
    ];
    for name in samples {
        let refused = option(1, name).validate().is_err();
        assert_eq!(refused, name.trim().is_empty(), "name {:?}", name);
    }
}

fn template(name: &str, slots: Vec<SlotType>, limit: Option<i32>) -> CreateMealTemplate {
    CreateMealTemplate {
        name: name.to_string(),
        description: None,
        compatible_slots: slots,
        location_type: LocationType::Home,
        weekly_limit: limit,
    }
}

#[test]
fn create_template_messages_name_the_first_broken_rule() {
    assert_eq!(template("Yogurt", vec![SlotType::Lunch], None).validate(), Ok(()));
    assert_eq!(template("Yogurt", vec![SlotType::Lunch], Some(1)).validate(), Ok(()));
    assert_eq!(
        template("Yogurt", vec![SlotType::Lunch], Some(i32::MAX)).validate(),
        Ok(())
    );
    assert_eq!(
        template(" ", vec![], Some(0)).validate(),
        Err("Template name cannot be empty".to_string())
    );
    assert_eq!(
        template("Yogurt", vec![], Some(0)).validate(),
        Err("Template must be compatible with at least one slot".to_string())
    );
    assert_eq!(
        template("Yogurt", vec![SlotType::Dinner], Some(0)).validate(),
        Err("Weekly limit must be positive".to_string())
    );
    assert_eq!(
        template("Yogurt", vec![SlotType::Dinner], Some(i32::MIN)).validate(),
        Err("Weekly limit must be positive".to_string())
    );
}

fn tag(name: &str, display_name: &str, suggestion: Option<i32>) -> CreateTag {
    CreateTag {
        name: name.to_string(),
        display_name: display_name.to_string(),
        category: TagCategory::Ingredient,
        weekly_suggestion: suggestion,
        parent_tag_id: None,
    }
}

#[test]
fn create_tag_messages_name_the_first_broken_rule() {
    assert_eq!(tag("pasta", "Pasta", None).validate(), Ok(()));
    assert_eq!(tag("pasta_integrale", "Pasta", Some(0)).validate(), Ok(()));
    assert_eq!(tag("_", "Pasta", Some(i32::MAX)).validate(), Ok(()));
    assert_eq!(
        tag("", "", Some(-1)).validate(),
        Err("Tag name cannot be empty".to_string())
    );
    assert_eq!(
        tag("pasta", "  ", Some(-1)).validate(),
        Err("Tag display name cannot be empty".to_string())
    );
    for name in ["Pasta", "pasta1", "pasta-x", "pasta x", "pastà", "PASTA", "pasta ", "{", "`"] {
        assert_eq!(
            tag(name, "Pasta", Some(-1)).validate(),
            Err("Tag name must be lowercase with underscores only".to_string()),
            "name {:?}",
            name
        );
    }
    assert_eq!(
        tag("pasta", "Pasta", Some(-1)).validate(),
        Err("Weekly suggestion cannot be negative".to_string())
    );
    assert_eq!(tag("az", "Pasta", None).validate(), Ok(()));
}

#[test]
fn patch_keeps_clears_or_assigns() {
    assert_eq!(Patch::Keep.apply(Some(3)), Some(3));
    assert_eq!(Patch::<i32>::Keep.apply(None), None);
    assert_eq!(Patch::<i32>::Clear.apply(Some(3)), None);
    assert_eq!(Patch::<i32>::Clear.apply(None), None);
    assert_eq!(Patch::Assign(5).apply(Some(3)), Some(5));
    assert_eq!(Patch::Assign(5).apply(None), Some(5));
    assert!(!Patch::<i32>::Keep.is_change());
    assert!(Patch::<i32>::Clear.is_change());
    assert!(Patch::Assign(1).is_change());
}
