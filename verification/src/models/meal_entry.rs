//! What is checked of a new meal entry, and the weekly usage counts that the store's
//! aggregate views give of the entries it holds.

use vstd::prelude::*;
use vstd::string::StringExecFns;

verus! {

/// Why a new meal entry is refused, if it is: the first of the rules it breaks.
pub open spec fn entry_refusal(meal_option_id: i64, servings_not_positive: bool) -> Option<
    Seq<char>,
> {
    if meal_option_id <= 0 {
        Some("Invalid meal option ID"@)
    } else if servings_not_positive {
        Some("Servings must be positive"@)
    } else {
        None
    }
}

/// Checks a new meal entry: the id of its option must be one that an option can
/// have, and its servings, where it names any, must be positive. The servings are
/// a fraction, and whoever holds them says whether they fail to be positive.
pub fn validate_entry(meal_option_id: i64, servings_not_positive: bool) -> (r: Result<(), String>)
    ensures
        r is Ok <==> meal_option_id > 0 && !servings_not_positive,
        r is Ok <==> entry_refusal(meal_option_id, servings_not_positive) is None,
        r matches Err(message) ==> entry_refusal(meal_option_id, servings_not_positive) == Some(
            message@,
        ),
{
    if meal_option_id <= 0 {
        return Err(String::from_str("Invalid meal option ID"));
    }
    if servings_not_positive {
        return Err(String::from_str("Servings must be positive"));
    }
    Ok(())
}

/// How often a meal option occurs among the entries of one ISO week.
#[derive(Debug, Clone)]
pub struct WeeklyUsage {
    pub meal_option_id: i64,
    /// The week's key, as `ValidationService::get_week_string` writes it.
    pub week: String,
    pub usage_count: i64,
}

/// A `WeeklyUsage` with its text as a sequence of characters.
pub struct WeeklyUsageView {
    pub meal_option_id: i64,
    pub week: Seq<char>,
    pub usage_count: i64,
}

impl View for WeeklyUsage {
    type V = WeeklyUsageView;

    open spec fn view(&self) -> WeeklyUsageView {
        WeeklyUsageView {
            meal_option_id: self.meal_option_id,
            week: self.week@,
            usage_count: self.usage_count,
        }
    }
}

impl DeepView for WeeklyUsage {
    type V = WeeklyUsageView;

    open spec fn deep_view(&self) -> WeeklyUsageView {
        self@
    }
}

/// How often the options that carry a tag occur among the entries of one ISO week.
#[derive(Debug, Clone)]
pub struct WeeklyTagUsage {
    pub tag_id: i64,
    pub tag_name: String,
    pub week: String,
    pub usage_count: i64,
}

/// A `WeeklyTagUsage` with its texts as sequences of characters.
pub struct WeeklyTagUsageView {
    pub tag_id: i64,
    pub tag_name: Seq<char>,
    pub week: Seq<char>,
    pub usage_count: i64,
}

impl View for WeeklyTagUsage {
    type V = WeeklyTagUsageView;

    open spec fn view(&self) -> WeeklyTagUsageView {
        WeeklyTagUsageView {
            tag_id: self.tag_id,
            tag_name: self.tag_name@,
            week: self.week@,
            usage_count: self.usage_count,
        }
    }
}

impl DeepView for WeeklyTagUsage {
    type V = WeeklyTagUsageView;

    open spec fn deep_view(&self) -> WeeklyTagUsageView {
        self@
    }
}

} // verus!
