//! Meal templates: the cards that fill the slots of a day.

use vstd::prelude::*;
use vstd::string::StringExecFns;

use crate::models::enums::{rejection_text, LocationType, SlotType};
use crate::models::patch::Patch;
use crate::models::timestamp::Timestamp;
use crate::text::{is_blank, str_is_blank};

verus! {

/// A reusable meal with the slots it can fill and, optionally, a hard cap on how
/// often an option of it may be planned in one week.
#[derive(Debug, Clone, PartialEq)]
pub struct MealTemplate {
    pub id: i64,
    pub name: String,
    pub description: Option<String>,
    /// The slots that the template can fill.
    pub compatible_slots: Vec<SlotType>,
    /// Where the meal can be prepared.
    pub location_type: LocationType,
    /// The most entries per week; `None` for no limit.
    pub weekly_limit: Option<i32>,
    pub created_at: Timestamp,
    pub updated_at: Timestamp,
}

/// A `MealTemplate` with its texts as sequences of characters.
pub struct MealTemplateView {
    pub id: i64,
    pub name: Seq<char>,
    pub description: Option<Seq<char>>,
    pub compatible_slots: Seq<SlotType>,
    pub location_type: LocationType,
    pub weekly_limit: Option<i32>,
    pub created_at: Timestamp,
    pub updated_at: Timestamp,
}

impl View for MealTemplate {
    type V = MealTemplateView;

    open spec fn view(&self) -> MealTemplateView {
        MealTemplateView {
            id: self.id,
            name: self.name@,
            description: self.description.deep_view(),
            compatible_slots: self.compatible_slots@,
            location_type: self.location_type,
            weekly_limit: self.weekly_limit,
            created_at: self.created_at,
            updated_at: self.updated_at,
        }
    }
}

impl MealTemplateView {
    /// Whether the template can fill a slot: the slot is one of its compatible slots.
    pub open spec fn fills(self, slot: SlotType) -> bool {
        self.compatible_slots.contains(slot)
    }
}

impl DeepView for MealTemplate {
    type V = MealTemplateView;

    open spec fn deep_view(&self) -> MealTemplateView {
        self@
    }
}

/// A template as the store's row holds it: the slots and the location still as text.
#[derive(Debug)]
pub struct MealTemplateRow {
    pub id: i64,
    pub name: String,
    pub description: Option<String>,
    pub compatible_slots: String,
    pub location_type: String,
    pub weekly_limit: Option<i32>,
    pub created_at: Timestamp,
    pub updated_at: Timestamp,
}

/// What is needed to create a template.
#[derive(Debug, Clone)]
pub struct CreateMealTemplate {
    pub name: String,
    pub description: Option<String>,
    pub compatible_slots: Vec<SlotType>,
    pub location_type: LocationType,
    pub weekly_limit: Option<i32>,
}

/// A change to a template. `None` leaves a field as it is.
#[derive(Debug, Clone)]
pub struct UpdateMealTemplate {
    pub name: Option<String>,
    pub description: Patch<String>,
    pub compatible_slots: Option<Vec<SlotType>>,
    pub location_type: Option<LocationType>,
    pub weekly_limit: Patch<i32>,
}

impl MealTemplate {
    /// Whether the template can fill a slot.
    pub fn fills(&self, slot: SlotType) -> (r: bool)
        ensures
            r == self@.fills(slot),
    {
        let mut i: usize = 0;
        while i < self.compatible_slots.len()
            invariant
                i <= self.compatible_slots.len(),
                forall|k: int| 0 <= k < i ==> self.compatible_slots@[k] != slot,
            decreases self.compatible_slots.len() - i,
        {
            if self.compatible_slots[i] == slot {
                return true;
            }
            i += 1;
        }
        false
    }

    /// The template of a row of the store, given what reading the row's text of
    /// compatible slots gave: the slots, or why the text could not be read.
    /// Fails with that reason after "Failed to parse compatible_slots: ", or with
    /// the message of `LocationType::from_db_string` where the row's location is
    /// none; the slots are looked at first.
    pub fn from_row(row: MealTemplateRow, compatible_slots: Result<Vec<SlotType>, String>) -> (r:
        Result<MealTemplate, String>)
        ensures
            r is Ok <==> compatible_slots is Ok && exists|location: LocationType|
                location.db_text() == row.location_type@,
            r matches Ok(template) ==> {
                &&& template.id == row.id
                &&& template.name@ == row.name@
                &&& template.description.deep_view() == row.description.deep_view()
                &&& template.compatible_slots@ == compatible_slots->Ok_0@
                &&& template.location_type.db_text() == row.location_type@
                &&& template.weekly_limit == row.weekly_limit
                &&& template.created_at == row.created_at
                &&& template.updated_at == row.updated_at
            },
            r matches Err(message) ==> message@ == match compatible_slots {
                Err(reason) => "Failed to parse compatible_slots: "@ + reason@,
                Ok(_) => rejection_text("Invalid location type: "@, row.location_type@),
            },
    {
        let slots = match compatible_slots {
            Ok(slots) => slots,
            Err(reason) => {
                let mut message = String::from_str("Failed to parse compatible_slots: ");
                message.append(reason.as_str());
                return Err(message);
            },
        };
        let location_type = match LocationType::from_db_string(row.location_type.as_str()) {
            Ok(location_type) => location_type,
            Err(message) => {
                return Err(message);
            },
        };
        Ok(
            MealTemplate {
                id: row.id,
                name: row.name,
                description: row.description,
                compatible_slots: slots,
                location_type,
                weekly_limit: row.weekly_limit,
                created_at: row.created_at,
                updated_at: row.updated_at,
            },
        )
    }
}

impl CreateMealTemplate {
    /// Why the input is refused, if it is: the first of the rules it breaks.
    pub open spec fn refusal(self) -> Option<Seq<char>> {
        if is_blank(self.name@) {
            Some("Template name cannot be empty"@)
        } else if self.compatible_slots@.len() == 0 {
            Some("Template must be compatible with at least one slot"@)
        } else if self.weekly_limit matches Some(limit) && limit <= 0 {
            Some("Weekly limit must be positive"@)
        } else {
            None
        }
    }

    /// Checks that the name is not blank, that there is a slot to fill, and that a
    /// weekly limit, if there is one, is positive.
    pub fn validate(&self) -> (r: Result<(), String>)
        ensures
            r is Ok <==> self.refusal() is None,
            r matches Err(message) ==> self.refusal() == Some(message@),
    {
        if str_is_blank(self.name.as_str()) {
            return Err(String::from_str("Template name cannot be empty"));
        }
        if self.compatible_slots.len() == 0 {
            return Err(String::from_str("Template must be compatible with at least one slot"));
        }
        if let Some(limit) = self.weekly_limit {
            if limit <= 0 {
                return Err(String::from_str("Weekly limit must be positive"));
            }
        }
        Ok(())
    }
}

} // verus!
