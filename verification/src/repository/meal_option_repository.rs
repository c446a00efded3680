//! Meal options in the store.

use vstd::prelude::*;

use crate::models::meal_option::UpdateMealOption;
use crate::repository::statement::{update_statement, update_statement_text};

verus! {

/// The repository of meal options.
pub struct MealOptionRepository;

impl MealOptionRepository {
    /// The columns that an update of a meal option changes, in the order in which
    /// their new values are handed to the statement.
    pub open spec fn changed_columns(update: UpdateMealOption) -> Seq<Seq<char>> {
        (if update.name is Some {
            seq!["name"@]
        } else {
            Seq::empty()
        }) + (if !(update.description is Keep) {
            seq!["description"@]
        } else {
            Seq::empty()
        }) + (if !(update.nutritional_notes is Keep) {
            seq!["nutritional_notes"@]
        } else {
            Seq::empty()
        })
    }

    /// The columns that an update changes.
    pub fn update_columns(update: &UpdateMealOption) -> (columns: Vec<&'static str>)
        ensures
            columns.deep_view() == Self::changed_columns(*update),
    {
        let mut columns: Vec<&'static str> = Vec::new();
        if update.name.is_some() {
            columns.push("name");
        }
        if update.description.is_change() {
            columns.push("description");
        }
        if update.nutritional_notes.is_change() {
            columns.push("nutritional_notes");
        }
        assert(columns.deep_view() =~= Self::changed_columns(*update));
        columns
    }

    /// The statement of an update; none where the update changes nothing, and the
    /// option stays as it is.
    pub fn update_statement(update: &UpdateMealOption) -> (statement: Option<String>)
        ensures
            statement is Some <==> Self::changed_columns(*update).len() > 0,
            statement matches Some(text) ==> text@ == update_statement_text(
                "meal_options"@,
                Self::changed_columns(*update),
            ),
    {
        let columns = Self::update_columns(update);
        assert(columns.deep_view().len() == columns@.len());
        update_statement("meal_options", &columns)
    }
}

} // verus!
