//! Data models of the meal planner: the entities that the store holds and the
//! inputs that create and change them.

pub mod enums;
pub mod meal_entry;
pub mod meal_option;
pub mod meal_template;
pub mod patch;
pub mod tag;
pub mod timestamp;

pub use enums::{LocationType, SlotType, TagCategory};
pub use meal_entry::{
    validate_entry, WeeklyTagUsage, WeeklyTagUsageView, WeeklyUsage, WeeklyUsageView,
};
pub use meal_option::{
    CreateMealOption, MealOption, MealOptionView, MealOptionWithTags, MealOptionWithTagsView,
    UpdateMealOption,
};
pub use meal_template::{
    CreateMealTemplate, MealTemplate, MealTemplateRow, MealTemplateView, UpdateMealTemplate,
};
pub use patch::Patch;
pub use tag::{CreateTag, Tag, TagView, UpdateTag};
pub use timestamp::Timestamp;
