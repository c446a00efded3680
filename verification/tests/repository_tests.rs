use nutrition_helper::models::{
    LocationType, MealTemplate, MealTemplateRow, Patch, SlotType, Tag, TagCategory, Timestamp,
    UpdateMealOption, UpdateMealTemplate, UpdateTag,
};
use nutrition_helper::repository::statement::update_statement;
use nutrition_helper::repository::{
    MealEntryRepository, MealOptionRepository, MealTemplateRepository, TagRepository,
};

fn created() -> Timestamp {
    Timestamp { seconds: 1_730_678_400, nanoseconds: 5 }
}

fn changed() -> Timestamp {
    Timestamp { seconds: 1_730_764_800, nanoseconds: 7 }
}

fn template(id: i64, name: &str, slots: Vec<SlotType>) -> MealTemplate {
    MealTemplate {
        id,
        name: name.to_string(),
        description: Some("as it was".to_string()),
        compatible_slots: slots,
        location_type: LocationType::Home,
        weekly_limit: Some(3),
        created_at: created(),
        updated_at: changed(),
    }
}

#[test]
fn entry_update_statement_names_the_fields_that_are_set() {
    assert_eq!(MealEntryRepository::update_statement(false, false, false, false), None);
    assert_eq!(
        MealEntryRepository::update_statement(true, false, false, false),
        Some(
            "UPDATE meal_entries SET location = ?, updated_at = CURRENT_TIMESTAMP WHERE id = ?"
                .to_string()
        )
    );
    assert_eq!(
        MealEntryRepository::update_statement(false, true, false, true),
        Some(
            "UPDATE meal_entries SET servings = ?, completed = ?, updated_at = CURRENT_TIMESTAMP WHERE id = ?"
                .to_string()
        )
    );
    assert_eq!(
        MealEntryRepository::update_statement(true, true, true, true),
        Some(
            "UPDATE meal_entries SET location = ?, servings = ?, notes = ?, completed = ?, updated_at = CURRENT_TIMESTAMP WHERE id = ?"
                .to_string()
        )
    );
    assert_eq!(
        MealEntryRepository::update_columns(true, false, true, false),
        vec!["location", "notes"]
    );
    assert_eq!(MealEntryRepository::update_columns(false, false, false, false).len(), 0);
}

#[test]
fn entry_update_statement_is_built_as_by_joining() {
    for bits in 0..16u32 {
        let flags = [bits & 1 != 0, bits & 2 != 0, bits & 4 != 0, bits & 8 != 0];
        let names = ["location", "servings", "notes", "completed"];
        let mut updates: Vec<String> = vec![];
        for i in 0..4 {
            if flags[i] {
                updates.push(format!("{} = ?", names[i]));
            }
        }
        let expected = if updates.is_empty() {
            None
        } else {
            Some(format!(
                "UPDATE meal_entries SET {}, updated_at = CURRENT_TIMESTAMP WHERE id = ?",
                updates.join(", ")
            ))
        };
        assert_eq!(
            MealEntryRepository::update_statement(flags[0], flags[1], flags[2], flags[3]),
            expected
        );
    }
}

#[test]
fn option_update_statement_names_the_fields_that_change() {
    let nothing = UpdateMealOption {
        name: None,
        description: Patch::Keep,
        nutritional_notes: Patch::Keep,
    };
    assert_eq!(MealOptionRepository::update_statement(&nothing), None);
    assert_eq!(MealOptionRepository::update_columns(&nothing).len(), 0);

    let all = UpdateMealOption {
        name: Some("ricotta".to_string()),
        description: Patch::Clear,
        nutritional_notes: Patch::Assign("High in protein".to_string()),
    };
    assert_eq!(
        MealOptionRepository::update_statement(&all),
        Some(
            "UPDATE meal_options SET name = ?, description = ?, nutritional_notes = ?, updated_at = CURRENT_TIMESTAMP WHERE id = ?"
                .to_string()
        )
    );
    assert_eq!(
        MealOptionRepository::update_columns(&all),
        vec!["name", "description", "nutritional_notes"]
    );

    let notes = UpdateMealOption {
        name: None,
        description: Patch::Keep,
        nutritional_notes: Patch::Clear,
    };
    assert_eq!(
        MealOptionRepository::update_statement(&notes),
        Some(
            "UPDATE meal_options SET nutritional_notes = ?, updated_at = CURRENT_TIMESTAMP WHERE id = ?"
                .to_string()
        )
    );
}

#[test]
fn update_statement_for_any_table() {
    assert_eq!(update_statement("t", &vec![]), None);
    assert_eq!(
        update_statement("t", &vec!["a"]),
        Some("UPDATE t SET a = ?, updated_at = CURRENT_TIMESTAMP WHERE id = ?".to_string())
    );
    assert_eq!(
        update_statement("t", &vec!["a", "b", "c"]),
        Some(
            "UPDATE t SET a = ?, b = ?, c = ?, updated_at = CURRENT_TIMESTAMP WHERE id = ?"
                .to_string()
        )
    );
}

#[test]
fn templates_are_kept_by_slot_in_order() {
    let all = vec![
        template(1, "a", vec![SlotType::Breakfast, SlotType::Lunch]),
        template(2, "b", vec![SlotType::Dinner]),
        template(3, "c", vec![]),
        template(4, "d", vec![SlotType::Lunch]),
        template(5, "e", vec![SlotType::Dinner, SlotType::Lunch, SlotType::Lunch]),
    ];
    let ids = |slot| -> Vec<i64> {
        MealTemplateRepository::compatible_with_slot(all.clone(), slot)
            .iter()
            .map(|t| t.id)
            .collect()
    };
    assert_eq!(ids(SlotType::Lunch), vec![1, 4, 5]);
    assert_eq!(ids(SlotType::Dinner), vec![2, 5]);
    assert_eq!(ids(SlotType::Breakfast), vec![1]);
    assert_eq!(ids(SlotType::MorningSnack), Vec::<i64>::new());
    assert_eq!(
        MealTemplateRepository::compatible_with_slot(vec![], SlotType::Lunch),
        vec![]
    );
    let kept = MealTemplateRepository::compatible_with_slot(all.clone(), SlotType::Dinner);
    assert_eq!(kept, vec![all[1].clone(), all[4].clone()]);
}

#[test]
fn template_update_changes_the_named_fields_only() {
    let existing = template(7, "Yogurt", vec![SlotType::Breakfast]);
    let keep = UpdateMealTemplate {
        name: None,
        description: Patch::Keep,
        compatible_slots: None,
        location_type: None,
        weekly_limit: Patch::Keep,
    };
    assert_eq!(MealTemplateRepository::updated(existing.clone(), keep), existing);

    let change = UpdateMealTemplate {
        name: Some("Skyr".to_string()),
        description: Patch::Clear,
        compatible_slots: Some(vec![SlotType::Lunch, SlotType::Dinner]),
        location_type: Some(LocationType::Any),
        weekly_limit: Patch::Assign(5),
    };
    assert_eq!(
        MealTemplateRepository::updated(existing.clone(), change),
        MealTemplate {
            id: 7,
            name: "Skyr".to_string(),
            description: None,
            compatible_slots: vec![SlotType::Lunch, SlotType::Dinner],
            location_type: LocationType::Any,
            weekly_limit: Some(5),
            created_at: created(),
            updated_at: changed(),
        }
    );

    let partly = UpdateMealTemplate {
        name: None,
        description: Patch::Assign("new".to_string()),
        compatible_slots: None,
        location_type: None,
        weekly_limit: Patch::Clear,
    };
    let updated = MealTemplateRepository::updated(existing.clone(), partly);
    assert_eq!(updated.name, "Yogurt");
    assert_eq!(updated.description, Some("new".to_string()));
    assert_eq!(updated.compatible_slots, vec![SlotType::Breakfast]);
    assert_eq!(updated.location_type, LocationType::Home);
    assert_eq!(updated.weekly_limit, None);
}

#[test]
fn tag_update_changes_the_named_fields_only() {
    let existing = Tag {
        id: 3,
        name: "pasta".to_string(),
        display_name: "Pasta".to_string(),
        category: TagCategory::Ingredient,
        weekly_suggestion: Some(3),
        parent_tag_id: Some(1),
        created_at: created(),
    };
    let keep = UpdateTag {
        display_name: None,
        category: None,
        weekly_suggestion: Patch::Keep,
        parent_tag_id: Patch::Keep,
    };
    assert_eq!(TagRepository::updated(existing.clone(), keep), existing);

    let change = UpdateTag {
        display_name: Some("Pasta integrale".to_string()),
        category: Some(TagCategory::Dietary),
        weekly_suggestion: Patch::Clear,
        parent_tag_id: Patch::Assign(9),
    };
    assert_eq!(
        TagRepository::updated(existing.clone(), change),
        Tag {
            id: 3,
            name: "pasta".to_string(),
            display_name: "Pasta integrale".to_string(),
            category: TagCategory::Dietary,
            weekly_suggestion: None,
            parent_tag_id: Some(9),
            created_at: created(),
        }
    );

    let more = UpdateTag {
        display_name: None,
        category: None,
        weekly_suggestion: Patch::Assign(4),
        parent_tag_id: Patch::Clear,
    };
    let updated = TagRepository::updated(existing, more);
    assert_eq!(updated.weekly_suggestion, Some(4));
    assert_eq!(updated.parent_tag_id, None);
    assert_eq!(updated.display_name, "Pasta");
    assert_eq!(updated.category, TagCategory::Ingredient);
}

fn row(compatible_slots: &str, location_type: &str, description: Option<&str>, weekly_limit: Option<i32>) -> MealTemplateRow {
    MealTemplateRow {
        id: 1,
        name: if description.is_some() { "Test Template".to_string() } else { "Test".to_string() },
        description: description.map(|d| d.to_string()),
        compatible_slots: compatible_slots.to_string(),
        location_type: location_type.to_string(),
        weekly_limit,
        created_at: created(),
        updated_at: changed(),
    }
}

// Reads the text of compatible slots as the store keeps it: a JSON list of the
// slots' texts.
fn read_slots(text: &str) -> Result<Vec<SlotType>, String> {
    let texts: Vec<String> = serde_json::from_str(text).map_err(|e| e.to_string())?;
    texts.iter().map(|t| SlotType::from_db_string(t)).collect()
}

fn template_of(row: MealTemplateRow) -> Result<MealTemplate, String> {
    let slots = read_slots(&row.compatible_slots);
    MealTemplate::from_row(row, slots)
}

#[test]
fn test_meal_template_row_conversion() {
    // Test successful conversion
    let template =
        template_of(row(r#"["breakfast","lunch"]"#, "home", Some("Test description"), Some(3)))
            .unwrap();
    assert_eq!(template.id, 1);
    assert_eq!(template.name, "Test Template");
    assert_eq!(template.compatible_slots.len(), 2);
    assert_eq!(template.location_type, LocationType::Home);
    assert_eq!(template.weekly_limit, Some(3));

    // Test invalid compatible_slots JSON
    let result: Result<MealTemplate, String> = template_of(row("invalid json", "home", None, None));
    assert!(result.is_err());
    assert!(result.unwrap_err().contains("Failed to parse compatible_slots"));

    // Test invalid location_type
    let result: Result<MealTemplate, String> =
        template_of(row(r#"["breakfast"]"#, "invalid_location", None, None));
    assert!(result.is_err());
}

#[test]
fn template_of_a_row_keeps_every_field() {
    let template = MealTemplate::from_row(
        row(r#"["breakfast","lunch"]"#, "home", Some("Test description"), Some(3)),
        Ok(vec![SlotType::Breakfast, SlotType::Lunch]),
    )
    .unwrap();
    assert_eq!(
        template,
        MealTemplate {
            id: 1,
            name: "Test Template".to_string(),
            description: Some("Test description".to_string()),
            compatible_slots: vec![SlotType::Breakfast, SlotType::Lunch],
            location_type: LocationType::Home,
            weekly_limit: Some(3),
            created_at: created(),
            updated_at: changed(),
        }
    );

    // The text of the slots could not be read.
    let result = MealTemplate::from_row(
        row("", "home", None, None),
        Err("expected value at line 1".to_string()),
    );
    assert_eq!(
        result,
        Err("Failed to parse compatible_slots: expected value at line 1".to_string())
    );

    // The location is none.
    let result = MealTemplate::from_row(
        row("", "invalid_location", None, None),
        Ok(vec![SlotType::Breakfast]),
    );
    assert_eq!(result, Err("Invalid location type: invalid_location".to_string()));

    // Both fail: the slots are looked at first.
    let result =
        MealTemplate::from_row(row("", "invalid_location", None, None), Err("eof".to_string()));
    assert_eq!(result, Err("Failed to parse compatible_slots: eof".to_string()));
}
