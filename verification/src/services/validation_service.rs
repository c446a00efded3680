//! The validation engine: whether a meal entry may be created for an option, a slot
//! and a date, and which advice goes with it.
//!
//! The engine holds no state of its own and never reads the store itself. A check is
//! a `Validation`: it names the one question to the store that it waits on, takes
//! the answer, and goes on to the next question or to its outcome. Whoever owns the
//! store asks the questions; a failure of the store is theirs to report, and never
//! reaches the engine.

use vstd::prelude::*;
use vstd::string::StringExecFns;

use crate::calendar::{min_day_number, week_key_text, week_start, weekday_from_monday, Date};
use crate::models::enums::SlotType;
use crate::models::meal_entry::{WeeklyTagUsage, WeeklyTagUsageView, WeeklyUsage, WeeklyUsageView};
use crate::models::meal_option::{
    MealOption, MealOptionView, MealOptionWithTags, MealOptionWithTagsView,
};
use crate::models::meal_template::{MealTemplate, MealTemplateView};
use crate::models::tag::{Tag, TagView};
use crate::text::{decimal_text, push_decimal, push_two_digits};

verus! {

/// The kind of entity that a reference names.
#[derive(Debug, Clone, Copy, PartialEq, Eq, Structural)]
pub enum EntityKind {
    MealOption,
    MealTemplate,
    Tag,
}

/// Why a meal entry may not be created.
#[derive(Debug, Clone, PartialEq)]
pub enum ValidationError {
    /// The option has reached its template's weekly limit.
    WeeklyLimitExceeded { item_name: String, limit: i32, current_usage: i64 },
    /// The template cannot fill the requested slot.
    IncompatibleSlot { option_name: String, slot: SlotType, compatible_slots: Vec<SlotType> },
    /// A tag has reached its weekly suggestion. The engine reports this as a
    /// warning, never as a failure.
    TagSuggestionExceeded { tag_name: String, suggestion: i32, current_usage: i64 },
    /// The store holds no entity of this kind under this id.
    MissingReference { entity: EntityKind, id: i64 },
}

/// A `ValidationError` with its texts as sequences of characters.
pub enum ValidationErrorView {
    WeeklyLimitExceeded { item_name: Seq<char>, limit: i32, current_usage: i64 },
    IncompatibleSlot { option_name: Seq<char>, slot: SlotType, compatible_slots: Seq<SlotType> },
    TagSuggestionExceeded { tag_name: Seq<char>, suggestion: i32, current_usage: i64 },
    MissingReference { entity: EntityKind, id: i64 },
}

impl View for ValidationError {
    type V = ValidationErrorView;

    open spec fn view(&self) -> ValidationErrorView {
        match *self {
            ValidationError::WeeklyLimitExceeded { item_name, limit, current_usage } => {
                ValidationErrorView::WeeklyLimitExceeded {
                    item_name: item_name@,
                    limit,
                    current_usage,
                }
            },
            ValidationError::IncompatibleSlot { option_name, slot, compatible_slots } => {
                ValidationErrorView::IncompatibleSlot {
                    option_name: option_name@,
                    slot,
                    compatible_slots: compatible_slots@,
                }
            },
            ValidationError::TagSuggestionExceeded { tag_name, suggestion, current_usage } => {
                ValidationErrorView::TagSuggestionExceeded {
                    tag_name: tag_name@,
                    suggestion,
                    current_usage,
                }
            },
            ValidationError::MissingReference { entity, id } => {
                ValidationErrorView::MissingReference { entity, id }
            },
        }
    }
}

impl EntityKind {
    /// What messages call an entity of this kind.
    pub open spec fn name_text(self) -> Seq<char> {
        match self {
            EntityKind::MealOption => "Meal option"@,
            EntityKind::MealTemplate => "Template"@,
            EntityKind::Tag => "Tag"@,
        }
    }

    /// What messages call an entity of this kind.
    pub fn name(&self) -> (text: &'static str)
        ensures
            text@ == self.name_text(),
    {
        match self {
            EntityKind::MealOption => "Meal option",
            EntityKind::MealTemplate => "Template",
            EntityKind::Tag => "Tag",
        }
    }
}

/// The names of slots, with a comma and a space between one and the next.
pub open spec fn slot_names_text(slots: Seq<SlotType>) -> Seq<char>
    decreases slots.len(),
{
    if slots.len() == 0 {
        Seq::empty()
    } else if slots.len() == 1 {
        slots[0].name_text()
    } else {
        slot_names_text(slots.drop_last()) + ", "@ + slots.last().name_text()
    }
}

/// The message of a template that cannot fill a slot.
pub open spec fn incompatible_slot_text(
    option_name: Seq<char>,
    slot: SlotType,
    compatible_slots: Seq<SlotType>,
) -> Seq<char> {
    "'"@ + option_name + "' is not compatible with "@ + slot.name_text()
        + ". Compatible slots: ["@ + slot_names_text(compatible_slots) + "]"@
}

/// The message of a reference to an entity that the store does not hold.
pub open spec fn missing_reference_text(entity: EntityKind, id: int) -> Seq<char> {
    entity.name_text() + " with id "@ + decimal_text(id) + " does not exist"@
}

impl ValidationErrorView {
    /// The message that tells a user of the failure.
    pub open spec fn text(self) -> Seq<char> {
        match self {
            ValidationErrorView::WeeklyLimitExceeded { item_name, limit, current_usage } => {
                weekly_limit_text(item_name, limit as int, current_usage as int)
            },
            ValidationErrorView::IncompatibleSlot { option_name, slot, compatible_slots } => {
                incompatible_slot_text(option_name, slot, compatible_slots)
            },
            ValidationErrorView::TagSuggestionExceeded { tag_name, suggestion, current_usage } => {
                tag_suggestion_text(tag_name, suggestion as int, current_usage as int)
            },
            ValidationErrorView::MissingReference { entity, id } => missing_reference_text(
                entity,
                id as int,
            ),
        }
    }
}

fn push_slot_names(out: &mut String, slots: &Vec<SlotType>)
    ensures
        final(out)@ == old(out)@ + slot_names_text(slots@),
{
    let mut i: usize = 0;
    while i < slots.len()
        invariant
            i <= slots.len(),
            out@ == old(out)@ + slot_names_text(slots@.take(i as int)),
        decreases slots.len() - i,
    {
        let ghost before = out@;
        if i > 0 {
            out.append(", ");
        }
        out.append(slots[i].name());
        proof {
            let head = slots@.take(i as int);
            let next = slots@.take(i + 1);
            assert(next.drop_last() =~= head);
            assert(next.last() == slots@[i as int]);
            assert(out@ =~= old(out)@ + slot_names_text(next));
        }
        i += 1;
    }
    assert(slots@.take(slots.len() as int) =~= slots@);
}

impl ValidationError {
    /// The message that tells a user of the failure.
    pub fn to_string(&self) -> (message: String)
        ensures
            message@ == self@.text(),
    {
        match self {
            ValidationError::WeeklyLimitExceeded { item_name, limit, current_usage } => {
                let mut message = String::from_str("Weekly limit exceeded for '");
                message.append(item_name.as_str());
                message.append("': ");
                push_decimal(&mut message, *current_usage);
                message.append("/");
                push_decimal(&mut message, *limit as i64);
                message.append(" uses this week");
                message
            },
            ValidationError::IncompatibleSlot { option_name, slot, compatible_slots } => {
                let mut message = String::from_str("'");
                message.append(option_name.as_str());
                message.append("' is not compatible with ");
                message.append(slot.name());
                message.append(". Compatible slots: [");
                push_slot_names(&mut message, compatible_slots);
                message.append("]");
                message
            },
            ValidationError::TagSuggestionExceeded { tag_name, suggestion, current_usage } => {
                tag_suggestion_message(tag_name.as_str(), *suggestion, *current_usage)
            },
            ValidationError::MissingReference { entity, id } => {
                let mut message = String::from_str(entity.name());
                message.append(" with id ");
                push_decimal(&mut message, *id);
                message.append(" does not exist");
                message
            },
        }
    }
}

/// What a warning is about.
#[derive(Debug, Clone, Copy, PartialEq, Eq, Structural)]
pub enum WarningType {
    TagSuggestion,
    HighFrequency,
}

/// Advice that goes with a successful validation and does not block the entry.
#[derive(Debug, Clone, PartialEq)]
pub struct ValidationWarning {
    pub message: String,
    pub warning_type: WarningType,
}

/// A `ValidationWarning` with its message as a sequence of characters.
pub struct ValidationWarningView {
    pub message: Seq<char>,
    pub warning_type: WarningType,
}

impl View for ValidationWarning {
    type V = ValidationWarningView;

    open spec fn view(&self) -> ValidationWarningView {
        ValidationWarningView { message: self.message@, warning_type: self.warning_type }
    }
}

impl DeepView for ValidationWarning {
    type V = ValidationWarningView;

    open spec fn deep_view(&self) -> ValidationWarningView {
        self@
    }
}

/// What a validation gives: a value, or the reason why the entry may not be created.
pub type ValidationResult<T> = Result<T, ValidationError>;

/// The outcome of a check, with its texts as sequences of characters.
pub type OutcomeView = Result<Seq<ValidationWarningView>, ValidationErrorView>;

/// The view of an outcome: that of its warnings, or that of its failure.
pub open spec fn outcome_view(outcome: ValidationResult<Vec<ValidationWarning>>) -> OutcomeView {
    match outcome {
        Ok(warnings) => Ok(warnings.deep_view()),
        Err(error) => Err(error@),
    }
}

/// The message of a weekly limit that is reached.
pub open spec fn weekly_limit_text(item_name: Seq<char>, limit: int, current_usage: int) -> Seq<
    char,
> {
    "Weekly limit exceeded for '"@ + item_name + "': "@ + decimal_text(current_usage) + "/"@
        + decimal_text(limit) + " uses this week"@
}

/// The message of a tag whose weekly suggestion is reached.
pub open spec fn tag_suggestion_text(tag_name: Seq<char>, suggestion: int, current_usage: int) -> Seq<
    char,
> {
    "Tag '"@ + tag_name + "' suggestion exceeded: "@ + decimal_text(current_usage) + "/"@
        + decimal_text(suggestion) + " uses this week"@
}

fn tag_suggestion_message(tag_name: &str, suggestion: i32, current_usage: i64) -> (message: String)
    ensures
        message@ == tag_suggestion_text(tag_name@, suggestion as int, current_usage as int),
{
    let mut message = String::from_str("Tag '");
    message.append(tag_name);
    message.append("' suggestion exceeded: ");
    push_decimal(&mut message, current_usage);
    message.append("/");
    push_decimal(&mut message, suggestion as i64);
    message.append(" uses this week");
    message
}

/// Which check a validation makes before it turns to the tags.
#[derive(Debug, Clone, Copy, PartialEq, Eq, Structural)]
pub enum Plan {
    /// The weekly limit alone.
    WeeklyLimit,
    /// The slot, the weekly limit, and then the tag suggestions.
    MealEntry { slot: SlotType },
}

/// A question to the store.
#[derive(Debug, Clone, PartialEq)]
pub enum StoreQuery {
    /// The meal option with this id.
    MealOption { id: i64 },
    /// The template with this id.
    MealTemplate { id: i64 },
    /// The meal option with this id, with the ids of its tags in ascending order.
    MealOptionWithTags { id: i64 },
    /// The tag with this id.
    Tag { id: i64 },
    /// The usage count of a meal option in the week with this key.
    WeeklyUsage { meal_option_id: i64, week: String },
    /// The usage count of a tag in the week with this key.
    WeeklyTagUsage { tag_id: i64, week: String },
}

/// A `StoreQuery` with its week key as a sequence of characters.
pub enum StoreQueryView {
    MealOption { id: i64 },
    MealTemplate { id: i64 },
    MealOptionWithTags { id: i64 },
    Tag { id: i64 },
    WeeklyUsage { meal_option_id: i64, week: Seq<char> },
    WeeklyTagUsage { tag_id: i64, week: Seq<char> },
}

impl View for StoreQuery {
    type V = StoreQueryView;

    open spec fn view(&self) -> StoreQueryView {
        match *self {
            StoreQuery::MealOption { id } => StoreQueryView::MealOption { id },
            StoreQuery::MealTemplate { id } => StoreQueryView::MealTemplate { id },
            StoreQuery::MealOptionWithTags { id } => StoreQueryView::MealOptionWithTags { id },
            StoreQuery::Tag { id } => StoreQueryView::Tag { id },
            StoreQuery::WeeklyUsage { meal_option_id, week } => StoreQueryView::WeeklyUsage {
                meal_option_id,
                week: week@,
            },
            StoreQuery::WeeklyTagUsage { tag_id, week } => StoreQueryView::WeeklyTagUsage {
                tag_id,
                week: week@,
            },
        }
    }
}

impl DeepView for StoreQuery {
    type V = StoreQueryView;

    open spec fn deep_view(&self) -> StoreQueryView {
        self@
    }
}

/// What the store found. `None` says that it holds no such row; for a usage count,
/// that the week has no entry to count.
#[derive(Debug, Clone)]
pub enum StoreAnswer {
    MealOption(Option<MealOption>),
    MealTemplate(Option<MealTemplate>),
    MealOptionWithTags(Option<MealOptionWithTags>),
    Tag(Option<Tag>),
    WeeklyUsage(Option<WeeklyUsage>),
    WeeklyTagUsage(Option<WeeklyTagUsage>),
}

/// A `StoreAnswer` with its texts as sequences of characters.
pub enum StoreAnswerView {
    MealOption(Option<MealOptionView>),
    MealTemplate(Option<MealTemplateView>),
    MealOptionWithTags(Option<MealOptionWithTagsView>),
    Tag(Option<TagView>),
    WeeklyUsage(Option<WeeklyUsageView>),
    WeeklyTagUsage(Option<WeeklyTagUsageView>),
}

impl View for StoreAnswer {
    type V = StoreAnswerView;

    open spec fn view(&self) -> StoreAnswerView {
        match *self {
            StoreAnswer::MealOption(found) => StoreAnswerView::MealOption(found.deep_view()),
            StoreAnswer::MealTemplate(found) => StoreAnswerView::MealTemplate(found.deep_view()),
            StoreAnswer::MealOptionWithTags(found) => StoreAnswerView::MealOptionWithTags(
                found.deep_view(),
            ),
            StoreAnswer::Tag(found) => StoreAnswerView::Tag(found.deep_view()),
            StoreAnswer::WeeklyUsage(found) => StoreAnswerView::WeeklyUsage(found.deep_view()),
            StoreAnswer::WeeklyTagUsage(found) => StoreAnswerView::WeeklyTagUsage(
                found.deep_view(),
            ),
        }
    }
}

/// A check in progress: what it has learned so far and what it waits on, or its
/// outcome.
#[derive(Debug)]
pub enum Validation {
    /// Waits on the meal option.
    ResolvingOption { plan: Plan, meal_option_id: i64, week: String },
    /// Waits on the option's template.
    ResolvingTemplate {
        plan: Plan,
        meal_option_id: i64,
        option_name: String,
        template_id: i64,
        week: String,
    },
    /// Waits on the option's usage count of the week.
    CountingUsage { plan: Plan, meal_option_id: i64, option_name: String, limit: i32, week: String },
    /// Waits on the option with its tags.
    ListingTags { meal_option_id: i64, week: String },
    /// Waits on one tag; `remaining` are the tags after it.
    ResolvingTag { tag_id: i64, remaining: Vec<i64>, week: String, warnings: Vec<ValidationWarning> },
    /// Waits on one tag's usage count of the week.
    CountingTagUsage {
        tag_id: i64,
        display_name: String,
        suggestion: i32,
        remaining: Vec<i64>,
        week: String,
        warnings: Vec<ValidationWarning>,
    },
    /// The check is over.
    Finished { outcome: ValidationResult<Vec<ValidationWarning>> },
}

/// A `Validation` with its texts as sequences of characters.
pub enum ValidationView {
    ResolvingOption { plan: Plan, meal_option_id: i64, week: Seq<char> },
    ResolvingTemplate {
        plan: Plan,
        meal_option_id: i64,
        option_name: Seq<char>,
        template_id: i64,
        week: Seq<char>,
    },
    CountingUsage {
        plan: Plan,
        meal_option_id: i64,
        option_name: Seq<char>,
        limit: i32,
        week: Seq<char>,
    },
    ListingTags { meal_option_id: i64, week: Seq<char> },
    ResolvingTag {
        tag_id: i64,
        remaining: Seq<i64>,
        week: Seq<char>,
        warnings: Seq<ValidationWarningView>,
    },
    CountingTagUsage {
        tag_id: i64,
        display_name: Seq<char>,
        suggestion: i32,
        remaining: Seq<i64>,
        week: Seq<char>,
        warnings: Seq<ValidationWarningView>,
    },
    Finished { outcome: OutcomeView },
}

impl View for Validation {
    type V = ValidationView;

    open spec fn view(&self) -> ValidationView {
        match *self {
            Validation::ResolvingOption { plan, meal_option_id, week } => {
                ValidationView::ResolvingOption { plan, meal_option_id, week: week@ }
            },
            Validation::ResolvingTemplate {
                plan,
                meal_option_id,
                option_name,
                template_id,
                week,
            } => ValidationView::ResolvingTemplate {
                plan,
                meal_option_id,
                option_name: option_name@,
                template_id,
                week: week@,
            },
            Validation::CountingUsage { plan, meal_option_id, option_name, limit, week } => {
                ValidationView::CountingUsage {
                    plan,
                    meal_option_id,
                    option_name: option_name@,
                    limit,
                    week: week@,
                }
            },
            Validation::ListingTags { meal_option_id, week } => ValidationView::ListingTags {
                meal_option_id,
                week: week@,
            },
            Validation::ResolvingTag { tag_id, remaining, week, warnings } => {
                ValidationView::ResolvingTag {
                    tag_id,
                    remaining: remaining@,
                    week: week@,
                    warnings: warnings.deep_view(),
                }
            },
            Validation::CountingTagUsage {
                tag_id,
                display_name,
                suggestion,
                remaining,
                week,
                warnings,
            } => ValidationView::CountingTagUsage {
                tag_id,
                display_name: display_name@,
                suggestion,
                remaining: remaining@,
                week: week@,
                warnings: warnings.deep_view(),
            },
            Validation::Finished { outcome } => ValidationView::Finished {
                outcome: outcome_view(outcome),
            },
        }
    }
}

/// Whether a template can fill a slot for what goes by `name`: the slot must be one
/// of the template's compatible slots. The failure carries the name, the slot, and
/// all compatible slots.
pub open spec fn slot_verdict_for(name: Seq<char>, template: MealTemplateView, slot: SlotType)
    -> Result<(), ValidationErrorView> {
    if template.fills(slot) {
        Ok(())
    } else {
        Err(
            ValidationErrorView::IncompatibleSlot {
                option_name: name,
                slot,
                compatible_slots: template.compatible_slots,
            },
        )
    }
}

/// Whether a template can fill a slot, where no option is at hand: the failure goes
/// by the template's own name.
pub open spec fn slot_verdict(template: MealTemplateView, slot: SlotType) -> Result<
    (),
    ValidationErrorView,
> {
    slot_verdict_for(template.name, template, slot)
}

/// Whether one more entry stays within a weekly limit: `limit` entries may stand
/// side by side, and the one after them is refused.
pub open spec fn limit_verdict(item_name: Seq<char>, limit: i32, current_usage: i64) -> Result<
    (),
    ValidationErrorView,
> {
    if current_usage >= limit {
        Err(ValidationErrorView::WeeklyLimitExceeded { item_name, limit, current_usage })
    } else {
        Ok(())
    }
}

/// The warning for a tag whose usage has reached its weekly suggestion, and none
/// for a tag below it.
pub open spec fn suggestion_warning(display_name: Seq<char>, suggestion: i32, current_usage: i64)
    -> Option<ValidationWarningView> {
    if current_usage >= suggestion {
        Some(
            ValidationWarningView {
                message: tag_suggestion_text(display_name, suggestion as int, current_usage as int),
                warning_type: WarningType::TagSuggestion,
            },
        )
    } else {
        None
    }
}

/// The count that a usage answer stands for: none counts as zero.
pub open spec fn usage_count(found: Option<WeeklyUsageView>) -> i64 {
    match found {
        Some(usage) => usage.usage_count,
        None => 0,
    }
}

/// The count that a tag usage answer stands for: none counts as zero.
pub open spec fn tag_usage_count(found: Option<WeeklyTagUsageView>) -> i64 {
    match found {
        Some(usage) => usage.usage_count,
        None => 0,
    }
}

/// The state after the weekly limit was found to hold, or not to apply.
pub open spec fn after_limit(plan: Plan, meal_option_id: i64, week: Seq<char>) -> ValidationView {
    match plan {
        Plan::WeeklyLimit => ValidationView::Finished { outcome: Ok(Seq::empty()) },
        Plan::MealEntry { .. } => ValidationView::ListingTags { meal_option_id, week },
    }
}

/// The state that turns to the first of the tags that are left, or ends the check
/// where none is left.
pub open spec fn next_tag(
    remaining: Seq<i64>,
    week: Seq<char>,
    warnings: Seq<ValidationWarningView>,
) -> ValidationView {
    if remaining.len() == 0 {
        ValidationView::Finished { outcome: Ok(warnings) }
    } else {
        ValidationView::ResolvingTag {
            tag_id: remaining[0],
            remaining: remaining.remove(0),
            week,
            warnings,
        }
    }
}

/// The state after the option's template was found. Where the template cannot fill
/// the slot of a meal entry, the failure carries the option's name.
pub open spec fn after_template(
    plan: Plan,
    meal_option_id: i64,
    option_name: Seq<char>,
    week: Seq<char>,
    template: MealTemplateView,
) -> ValidationView {
    let slot_check = match plan {
        Plan::WeeklyLimit => Ok(()),
        Plan::MealEntry { slot } => slot_verdict_for(option_name, template, slot),
    };
    match slot_check {
        Err(error) => ValidationView::Finished { outcome: Err(error) },
        Ok(_) => match template.weekly_limit {
            Some(limit) => ValidationView::CountingUsage {
                plan,
                meal_option_id,
                option_name,
                limit,
                week,
            },
            None => after_limit(plan, meal_option_id, week),
        },
    }
}

impl ValidationView {
    /// The question that the check waits on; none once it is over.
    pub open spec fn pending(self) -> Option<StoreQueryView> {
        match self {
            ValidationView::ResolvingOption { meal_option_id, .. } => Some(
                StoreQueryView::MealOption { id: meal_option_id },
            ),
            ValidationView::ResolvingTemplate { template_id, .. } => Some(
                StoreQueryView::MealTemplate { id: template_id },
            ),
            ValidationView::CountingUsage { meal_option_id, week, .. } => Some(
                StoreQueryView::WeeklyUsage { meal_option_id, week },
            ),
            ValidationView::ListingTags { meal_option_id, .. } => Some(
                StoreQueryView::MealOptionWithTags { id: meal_option_id },
            ),
            ValidationView::ResolvingTag { tag_id, .. } => Some(StoreQueryView::Tag { id: tag_id }),
            ValidationView::CountingTagUsage { tag_id, week, .. } => Some(
                StoreQueryView::WeeklyTagUsage { tag_id, week },
            ),
            ValidationView::Finished { .. } => None,
        }
    }

    /// The state after the store's answer. An answer of another kind than the one
    /// that the check waits on changes nothing.
    pub open spec fn advance(self, answer: StoreAnswerView) -> ValidationView {
        match (self, answer) {
            (
                ValidationView::ResolvingOption { plan, meal_option_id, week },
                StoreAnswerView::MealOption(found),
            ) => match found {
                Some(option) => ValidationView::ResolvingTemplate {
                    plan,
                    meal_option_id,
                    option_name: option.name,
                    template_id: option.template_id,
                    week,
                },
                None => ValidationView::Finished {
                    outcome: Err(
                        ValidationErrorView::MissingReference {
                            entity: EntityKind::MealOption,
                            id: meal_option_id,
                        },
                    ),
                },
            },
            (
                ValidationView::ResolvingTemplate {
                    plan,
                    meal_option_id,
                    option_name,
                    template_id,
                    week,
                },
                StoreAnswerView::MealTemplate(found),
            ) => match found {
                Some(template) => after_template(plan, meal_option_id, option_name, week, template),
                None => ValidationView::Finished {
                    outcome: Err(
                        ValidationErrorView::MissingReference {
                            entity: EntityKind::MealTemplate,
                            id: template_id,
                        },
                    ),
                },
            },
            (
                ValidationView::CountingUsage { plan, meal_option_id, option_name, limit, week },
                StoreAnswerView::WeeklyUsage(found),
            ) => match limit_verdict(option_name, limit, usage_count(found)) {
                Ok(_) => after_limit(plan, meal_option_id, week),
                Err(error) => ValidationView::Finished { outcome: Err(error) },
            },
            (
                ValidationView::ListingTags { meal_option_id, week },
                StoreAnswerView::MealOptionWithTags(found),
            ) => match found {
                Some(option) => next_tag(option.tags, week, Seq::empty()),
                None => ValidationView::Finished {
                    outcome: Err(
                        ValidationErrorView::MissingReference {
                            entity: EntityKind::MealOption,
                            id: meal_option_id,
                        },
                    ),
                },
            },
            (
                ValidationView::ResolvingTag { tag_id, remaining, week, warnings },
                StoreAnswerView::Tag(found),
            ) => match found {
                Some(tag) => match tag.weekly_suggestion {
                    Some(suggestion) => ValidationView::CountingTagUsage {
                        tag_id,
                        display_name: tag.display_name,
                        suggestion,
                        remaining,
                        week,
                        warnings,
                    },
                    None => next_tag(remaining, week, warnings),
                },
                None => ValidationView::Finished {
                    outcome: Err(
                        ValidationErrorView::MissingReference { entity: EntityKind::Tag, id: tag_id },
                    ),
                },
            },
            (
                ValidationView::CountingTagUsage {
                    tag_id,
                    display_name,
                    suggestion,
                    remaining,
                    week,
                    warnings,
                },
                StoreAnswerView::WeeklyTagUsage(found),
            ) => match suggestion_warning(display_name, suggestion, tag_usage_count(found)) {
                Some(warning) => next_tag(remaining, week, warnings.push(warning)),
                None => next_tag(remaining, week, warnings),
            },
            _ => self,
        }
    }
}

/// The validation engine.
pub struct ValidationService;

fn finished_missing(entity: EntityKind, id: i64) -> (next: Validation)
    ensures
        next@ == (ValidationView::Finished {
            outcome: Err(ValidationErrorView::MissingReference { entity, id }),
        }),
{
    Validation::Finished { outcome: Err(ValidationError::MissingReference { entity, id }) }
}

fn proceed_after_limit(plan: Plan, meal_option_id: i64, week: String) -> (next: Validation)
    ensures
        next@ == after_limit(plan, meal_option_id, week@),
{
    match plan {
        Plan::WeeklyLimit => {
            let warnings: Vec<ValidationWarning> = Vec::new();
            assert(warnings.deep_view() =~= Seq::empty());
            Validation::Finished { outcome: Ok(warnings) }
        },
        Plan::MealEntry { .. } => Validation::ListingTags { meal_option_id, week },
    }
}

fn proceed_to_next_tag(remaining: Vec<i64>, week: String, warnings: Vec<ValidationWarning>) -> (next:
    Validation)
    ensures
        next@ == next_tag(remaining@, week@, warnings.deep_view()),
{
    let mut remaining = remaining;
    if remaining.len() == 0 {
        Validation::Finished { outcome: Ok(warnings) }
    } else {
        let tag_id = remaining.remove(0);
        Validation::ResolvingTag { tag_id, remaining, week, warnings }
    }
}

impl Validation {
    /// The question that the check waits on; none once it is over.
    pub fn pending(&self) -> (query: Option<StoreQuery>)
        ensures
            query.deep_view() == self@.pending(),
    {
        match self {
            Validation::ResolvingOption { meal_option_id, .. } => Some(
                StoreQuery::MealOption { id: *meal_option_id },
            ),
            Validation::ResolvingTemplate { template_id, .. } => Some(
                StoreQuery::MealTemplate { id: *template_id },
            ),
            Validation::CountingUsage { meal_option_id, week, .. } => Some(
                StoreQuery::WeeklyUsage { meal_option_id: *meal_option_id, week: week.clone() },
            ),
            Validation::ListingTags { meal_option_id, .. } => Some(
                StoreQuery::MealOptionWithTags { id: *meal_option_id },
            ),
            Validation::ResolvingTag { tag_id, .. } => Some(StoreQuery::Tag { id: *tag_id }),
            Validation::CountingTagUsage { tag_id, week, .. } => Some(
                StoreQuery::WeeklyTagUsage { tag_id: *tag_id, week: week.clone() },
            ),
            Validation::Finished { .. } => None,
        }
    }

    /// Whether the check is over.
    pub fn is_finished(&self) -> (r: bool)
        ensures
            r == (self@ is Finished),
            r == (self@.pending() is None),
    {
        match self {
            Validation::Finished { .. } => true,
            _ => false,
        }
    }

    /// The outcome of the check, once it is over: the warnings that go with a
    /// success, or the reason of the failure.
    pub fn outcome(self) -> (r: Option<ValidationResult<Vec<ValidationWarning>>>)
        ensures
            r is Some <==> self@ is Finished,
            r matches Some(outcome) ==> self@ == (ValidationView::Finished {
                outcome: outcome_view(outcome),
            }),
    {
        match self {
            Validation::Finished { outcome } => Some(outcome),
            _ => None,
        }
    }

    /// Takes the store's answer to the pending question and goes on to the next
    /// question or to the outcome.
    pub fn advance(self, answer: StoreAnswer) -> (next: Validation)
        ensures
            next@ == self@.advance(answer@),
    {
        match self {
            Validation::ResolvingOption { plan, meal_option_id, week } => match answer {
                StoreAnswer::MealOption(Some(option)) => Validation::ResolvingTemplate {
                    plan,
                    meal_option_id,
                    option_name: option.name,
                    template_id: option.template_id,
                    week,
                },
                StoreAnswer::MealOption(None) => finished_missing(
                    EntityKind::MealOption,
                    meal_option_id,
                ),
                _ => Validation::ResolvingOption { plan, meal_option_id, week },
            },
            Validation::ResolvingTemplate {
                plan,
                meal_option_id,
                option_name,
                template_id,
                week,
            } => match answer {
                StoreAnswer::MealTemplate(Some(template)) => {
                    let refused: Option<SlotType> = match plan {
                        Plan::WeeklyLimit => None,
                        Plan::MealEntry { slot } => if template.fills(slot) {
                            None
                        } else {
                            Some(slot)
                        },
                    };
                    match refused {
                        Some(slot) => Validation::Finished {
                            outcome: Err(
                                ValidationError::IncompatibleSlot {
                                    option_name,
                                    slot,
                                    compatible_slots: template.compatible_slots,
                                },
                            ),
                        },
                        None => match template.weekly_limit {
                            Some(limit) => Validation::CountingUsage {
                                plan,
                                meal_option_id,
                                option_name,
                                limit,
                                week,
                            },
                            None => proceed_after_limit(plan, meal_option_id, week),
                        },
                    }
                },
                StoreAnswer::MealTemplate(None) => finished_missing(
                    EntityKind::MealTemplate,
                    template_id,
                ),
                _ => Validation::ResolvingTemplate {
                    plan,
                    meal_option_id,
                    option_name,
                    template_id,
                    week,
                },
            },
            Validation::CountingUsage { plan, meal_option_id, option_name, limit, week } => {
                match answer {
                    StoreAnswer::WeeklyUsage(found) => {
                        let current_usage: i64 = match found {
                            Some(usage) => usage.usage_count,
                            None => 0,
                        };
                        match ValidationService::weekly_limit_verdict(
                            option_name,
                            limit,
                            current_usage,
                        ) {
                            Ok(_) => proceed_after_limit(plan, meal_option_id, week),
                            Err(error) => Validation::Finished { outcome: Err(error) },
                        }
                    },
                    _ => Validation::CountingUsage { plan, meal_option_id, option_name, limit, week },
                }
            },
            Validation::ListingTags { meal_option_id, week } => match answer {
                StoreAnswer::MealOptionWithTags(Some(option)) => {
                    let warnings: Vec<ValidationWarning> = Vec::new();
                    assert(warnings.deep_view() =~= Seq::empty());
                    proceed_to_next_tag(option.tags, week, warnings)
                },
                StoreAnswer::MealOptionWithTags(None) => finished_missing(
                    EntityKind::MealOption,
                    meal_option_id,
                ),
                _ => Validation::ListingTags { meal_option_id, week },
            },
            Validation::ResolvingTag { tag_id, remaining, week, warnings } => match answer {
                StoreAnswer::Tag(Some(tag)) => match tag.weekly_suggestion {
                    Some(suggestion) => Validation::CountingTagUsage {
                        tag_id,
                        display_name: tag.display_name,
                        suggestion,
                        remaining,
                        week,
                        warnings,
                    },
                    None => proceed_to_next_tag(remaining, week, warnings),
                },
                StoreAnswer::Tag(None) => finished_missing(EntityKind::Tag, tag_id),
                _ => Validation::ResolvingTag { tag_id, remaining, week, warnings },
            },
            Validation::CountingTagUsage {
                tag_id,
                display_name,
                suggestion,
                remaining,
                week,
                warnings,
            } => match answer {
                StoreAnswer::WeeklyTagUsage(found) => {
                    let current_usage: i64 = match found {
                        Some(usage) => usage.usage_count,
                        None => 0,
                    };
                    let mut warnings = warnings;
                    match ValidationService::tag_suggestion_warning(
                        display_name.as_str(),
                        suggestion,
                        current_usage,
                    ) {
                        Some(warning) => {
                            let ghost before = warnings.deep_view();
                            warnings.push(warning);
                            assert(warnings.deep_view() =~= before.push(warning@));
                        },
                        None => {},
                    }
                    proceed_to_next_tag(remaining, week, warnings)
                },
                _ => Validation::CountingTagUsage {
                    tag_id,
                    display_name,
                    suggestion,
                    remaining,
                    week,
                    warnings,
                },
            },
            Validation::Finished { outcome } => Validation::Finished { outcome },
        }
    }
}

impl ValidationService {
    /// The key of the ISO week of a date: the week's year, a hyphen, and the week's
    /// number in two digits, such as "2024-45". Weeks begin on Monday.
    pub fn get_week_string(date: Date) -> (key: String)
        ensures
            key@ == week_key_text(date.day_number()),
    {
        let week = date.iso_week();
        let mut key = String::new();
        push_decimal(&mut key, week.year as i64);
        key.append("-");
        push_two_digits(&mut key, week.week);
        proof {
            reveal_strlit("-");
            assert("-"@ =~= seq!['-']);
            assert(key@ =~= week_key_text(date.day_number()));
        }
        key
    }

    /// The Monday that begins the week of a date: the date itself if it is a Monday,
    /// and else the last Monday before it. That Monday must be a date: of the first
    /// four dates there are, which run from a Thursday to a Sunday, it is not.
    pub fn get_week_start(date: Date) -> (monday: Date)
        requires
            week_start(date.day_number()) >= min_day_number(),
        ensures
            monday.day_number() == week_start(date.day_number()),
            weekday_from_monday(monday.day_number()) == 0,
            monday.day_number() <= date.day_number() < monday.day_number() + 7,
    {
        let weekday = date.days_from_monday();
        date.minus_days(weekday)
    }

    /// Whether a template can fill a slot. The failure carries the template's name,
    /// the slot, and all the slots that the template can fill.
    pub fn validate_slot_compatibility(template: &MealTemplate, slot: SlotType) -> (r:
        ValidationResult<()>)
        ensures
            r is Ok <==> template@.fills(slot),
            r matches Err(error) ==> Err::<(), ValidationErrorView>(error@) == slot_verdict(
                template@,
                slot,
            ),
    {
        if template.fills(slot) {
            return Ok(());
        }
        let mut compatible_slots: Vec<SlotType> = Vec::new();
        let mut j: usize = 0;
        while j < template.compatible_slots.len()
            invariant
                j <= template.compatible_slots.len(),
                compatible_slots@ == template.compatible_slots@.take(j as int),
            decreases template.compatible_slots.len() - j,
        {
            compatible_slots.push(template.compatible_slots[j]);
            assert(template.compatible_slots@.take(j + 1) =~= template.compatible_slots@.take(
                j as int,
            ).push(template.compatible_slots@[j as int]));
            j += 1;
        }
        assert(compatible_slots@ =~= template.compatible_slots@);
        Err(
            ValidationError::IncompatibleSlot {
                option_name: template.name.clone(),
                slot,
                compatible_slots,
            },
        )
    }

    /// Whether one more entry stays within a weekly limit, given the entries that
    /// the week already has.
    pub fn weekly_limit_verdict(item_name: String, limit: i32, current_usage: i64) -> (r:
        ValidationResult<()>)
        ensures
            r is Ok <==> current_usage < limit,
            r matches Err(error) ==> Err::<(), ValidationErrorView>(error@) == limit_verdict(
                item_name@,
                limit,
                current_usage,
            ),
    {
        if current_usage >= limit as i64 {
            Err(ValidationError::WeeklyLimitExceeded { item_name, limit, current_usage })
        } else {
            Ok(())
        }
    }

    /// The warning for a tag, given the entries that the week already has with it.
    pub fn tag_suggestion_warning(display_name: &str, suggestion: i32, current_usage: i64) -> (r:
        Option<ValidationWarning>)
        ensures
            r.deep_view() == suggestion_warning(display_name@, suggestion, current_usage),
    {
        if current_usage >= suggestion as i64 {
            Some(
                ValidationWarning {
                    message: tag_suggestion_message(display_name, suggestion, current_usage),
                    warning_type: WarningType::TagSuggestion,
                },
            )
        } else {
            None
        }
    }

    /// Begins the check of the weekly limit for one more entry of a meal option in
    /// the week of `date`.
    pub fn check_weekly_limit(meal_option_id: i64, date: Date) -> (check: Validation)
        ensures
            check@ == (ValidationView::ResolvingOption {
                plan: Plan::WeeklyLimit,
                meal_option_id,
                week: week_key_text(date.day_number()),
            }),
    {
        Validation::ResolvingOption {
            plan: Plan::WeeklyLimit,
            meal_option_id,
            week: Self::get_week_string(date),
        }
    }

    /// Begins the check of the tag suggestions for one more entry of a meal option
    /// in the week of `date`.
    pub fn check_tag_suggestions(meal_option_id: i64, date: Date) -> (check: Validation)
        ensures
            check@ == (ValidationView::ListingTags {
                meal_option_id,
                week: week_key_text(date.day_number()),
            }),
    {
        Validation::ListingTags { meal_option_id, week: Self::get_week_string(date) }
    }

    /// Begins the validation of a meal entry for an option, a slot and a date: the
    /// slot, then the weekly limit, then the tag suggestions.
    pub fn validate_meal_entry(meal_option_id: i64, slot: SlotType, date: Date) -> (check:
        Validation)
        ensures
            check@ == (ValidationView::ResolvingOption {
                plan: Plan::MealEntry { slot },
                meal_option_id,
                week: week_key_text(date.day_number()),
            }),
    {
        Validation::ResolvingOption {
            plan: Plan::MealEntry { slot },
            meal_option_id,
            week: Self::get_week_string(date),
        }
    }
}

} // verus!
