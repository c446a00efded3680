//! Meal entries in the store.

use vstd::prelude::*;

use crate::repository::statement::{update_statement, update_statement_text};

verus! {

/// The repository of meal entries.
pub struct MealEntryRepository;

impl MealEntryRepository {
    /// The columns that an update of a meal entry changes, in the order in which
    /// their new values are handed to the statement.
    pub open spec fn changed_columns(
        location: bool,
        servings: bool,
        notes: bool,
        completed: bool,
    ) -> Seq<Seq<char>> {
        (if location {
            seq!["location"@]
        } else {
            Seq::empty()
        }) + (if servings {
            seq!["servings"@]
        } else {
            Seq::empty()
        }) + (if notes {
            seq!["notes"@]
        } else {
            Seq::empty()
        }) + (if completed {
            seq!["completed"@]
        } else {
            Seq::empty()
        })
    }

    /// The columns that an update changes, given which of its fields it sets.
    pub fn update_columns(location: bool, servings: bool, notes: bool, completed: bool) -> (columns:
        Vec<&'static str>)
        ensures
            columns.deep_view() == Self::changed_columns(location, servings, notes, completed),
    {
        let mut columns: Vec<&'static str> = Vec::new();
        if location {
            columns.push("location");
        }
        if servings {
            columns.push("servings");
        }
        if notes {
            columns.push("notes");
        }
        if completed {
            columns.push("completed");
        }
        assert(columns.deep_view() =~= Self::changed_columns(location, servings, notes, completed));
        columns
    }

    /// The statement of an update, given which of its fields it sets; none where it
    /// sets no field, and the entry stays as it is.
    pub fn update_statement(location: bool, servings: bool, notes: bool, completed: bool) -> (statement:
        Option<String>)
        ensures
            statement is Some <==> (location || servings || notes || completed),
            statement matches Some(text) ==> text@ == update_statement_text(
                "meal_entries"@,
                Self::changed_columns(location, servings, notes, completed),
            ),
    {
        let columns = Self::update_columns(location, servings, notes, completed);
        assert(columns.deep_view().len() == columns@.len());
        update_statement("meal_entries", &columns)
    }
}

} // verus!
