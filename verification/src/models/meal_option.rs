//! Meal options: the ingredient or variation choices within a template.

use vstd::prelude::*;
use vstd::string::StringExecFns;

use crate::models::patch::Patch;
use crate::models::timestamp::Timestamp;
use crate::text::{is_blank, str_is_blank};

verus! {

/// A choice within a template, such as "ricotta" under a bread-and-spread template.
#[derive(Debug, Clone, PartialEq)]
pub struct MealOption {
    pub id: i64,
    pub template_id: i64,
    pub name: String,
    pub description: Option<String>,
    pub nutritional_notes: Option<String>,
    pub created_at: Timestamp,
    pub updated_at: Timestamp,
}

/// A `MealOption` with its texts as sequences of characters.
pub struct MealOptionView {
    pub id: i64,
    pub template_id: i64,
    pub name: Seq<char>,
    pub description: Option<Seq<char>>,
    pub nutritional_notes: Option<Seq<char>>,
    pub created_at: Timestamp,
    pub updated_at: Timestamp,
}

impl View for MealOption {
    type V = MealOptionView;

    open spec fn view(&self) -> MealOptionView {
        MealOptionView {
            id: self.id,
            template_id: self.template_id,
            name: self.name@,
            description: self.description.deep_view(),
            nutritional_notes: self.nutritional_notes.deep_view(),
            created_at: self.created_at,
            updated_at: self.updated_at,
        }
    }
}

impl DeepView for MealOption {
    type V = MealOptionView;

    open spec fn deep_view(&self) -> MealOptionView {
        self@
    }
}

/// What is needed to create a meal option.
#[derive(Debug, Clone)]
pub struct CreateMealOption {
    pub template_id: i64,
    pub name: String,
    pub description: Option<String>,
    pub nutritional_notes: Option<String>,
}

/// A change to a meal option. `None` leaves the name as it is.
#[derive(Debug, Clone)]
pub struct UpdateMealOption {
    pub name: Option<String>,
    pub description: Patch<String>,
    pub nutritional_notes: Patch<String>,
}

/// A meal option with the ids of the tags attached to it.
#[derive(Debug, Clone)]
pub struct MealOptionWithTags {
    pub option: MealOption,
    pub tags: Vec<i64>,
}

/// A `MealOptionWithTags` with its texts as sequences of characters.
pub struct MealOptionWithTagsView {
    pub option: MealOptionView,
    pub tags: Seq<i64>,
}

impl View for MealOptionWithTags {
    type V = MealOptionWithTagsView;

    open spec fn view(&self) -> MealOptionWithTagsView {
        MealOptionWithTagsView { option: self.option@, tags: self.tags@ }
    }
}

impl DeepView for MealOptionWithTags {
    type V = MealOptionWithTagsView;

    open spec fn deep_view(&self) -> MealOptionWithTagsView {
        self@
    }
}

impl CreateMealOption {
    /// Why the input is refused, if it is: the first of the rules it breaks.
    pub open spec fn refusal(self) -> Option<Seq<char>> {
        if is_blank(self.name@) {
            Some("Option name cannot be empty"@)
        } else if self.template_id <= 0 {
            Some("Invalid template ID"@)
        } else {
            None
        }
    }

    /// Checks that the name is not blank and that the template id can be one.
    pub fn validate(&self) -> (r: Result<(), String>)
        ensures
            r is Ok <==> self.refusal() is None,
            r matches Err(message) ==> self.refusal() == Some(message@),
    {
        if str_is_blank(self.name.as_str()) {
            return Err(String::from_str("Option name cannot be empty"));
        }
        if self.template_id <= 0 {
            return Err(String::from_str("Invalid template ID"));
        }
        Ok(())
    }
}

} // verus!
