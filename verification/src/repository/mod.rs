//! What the repositories compute around their reads and writes of the store: the
//! statements they send, the rows they make of an update, and what they keep of what
//! they read.

pub mod meal_entry_repository;
pub mod meal_option_repository;
pub mod meal_template_repository;
pub mod statement;
pub mod tag_repository;

pub use meal_entry_repository::MealEntryRepository;
pub use meal_option_repository::MealOptionRepository;
pub use meal_template_repository::MealTemplateRepository;
pub use tag_repository::TagRepository;
