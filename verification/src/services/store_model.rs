//! What the checks of the validation engine come to when every question is answered
//! from one state of the store.

use vstd::prelude::*;

use crate::models::enums::SlotType;
use crate::models::meal_entry::{WeeklyTagUsageView, WeeklyUsageView};
use crate::models::meal_option::{MealOptionView, MealOptionWithTagsView};
use crate::models::meal_template::MealTemplateView;
use crate::models::tag::TagView;
use crate::services::validation_service::{
    after_limit, after_template, limit_verdict, next_tag, slot_verdict_for, suggestion_warning,
    tag_usage_count, usage_count, EntityKind, OutcomeView, Plan, StoreAnswerView, StoreQueryView,
    ValidationErrorView, ValidationView, ValidationWarningView,
};

verus! {

/// One state of the store, as far as the engine asks about it.
pub struct StoreModel {
    /// The meal options, by id.
    pub options: Map<i64, MealOptionView>,
    /// The templates, by id.
    pub templates: Map<i64, MealTemplateView>,
    /// The ids of the tags attached to each option, in ascending order.
    pub option_tags: Map<i64, Seq<i64>>,
    /// The tags, by id.
    pub tags: Map<i64, TagView>,
    /// The usage counts of options, by option id and week key.
    pub usage: Map<(i64, Seq<char>), WeeklyUsageView>,
    /// The usage counts of tags, by tag id and week key.
    pub tag_usage: Map<(i64, Seq<char>), WeeklyTagUsageView>,
}

/// The failure for a reference to an entity that the store does not hold.
pub open spec fn missing(entity: EntityKind, id: i64) -> ValidationErrorView {
    ValidationErrorView::MissingReference { entity, id }
}

impl StoreModel {
    /// The ids of the tags attached to an option; none where nothing is attached.
    pub open spec fn tags_of(self, meal_option_id: i64) -> Seq<i64> {
        if self.option_tags.contains_key(meal_option_id) {
            self.option_tags[meal_option_id]
        } else {
            Seq::empty()
        }
    }

    /// What the store finds about an option's usage in a week.
    pub open spec fn usage_found(self, meal_option_id: i64, week: Seq<char>) -> Option<
        WeeklyUsageView,
    > {
        if self.usage.contains_key((meal_option_id, week)) {
            Some(self.usage[(meal_option_id, week)])
        } else {
            None
        }
    }

    /// What the store finds about a tag's usage in a week.
    pub open spec fn tag_usage_found(self, tag_id: i64, week: Seq<char>) -> Option<
        WeeklyTagUsageView,
    > {
        if self.tag_usage.contains_key((tag_id, week)) {
            Some(self.tag_usage[(tag_id, week)])
        } else {
            None
        }
    }

    /// The store's answer to a question.
    pub open spec fn answer(self, query: StoreQueryView) -> StoreAnswerView {
        match query {
            StoreQueryView::MealOption { id } => StoreAnswerView::MealOption(
                if self.options.contains_key(id) {
                    Some(self.options[id])
                } else {
                    None
                },
            ),
            StoreQueryView::MealTemplate { id } => StoreAnswerView::MealTemplate(
                if self.templates.contains_key(id) {
                    Some(self.templates[id])
                } else {
                    None
                },
            ),
            StoreQueryView::MealOptionWithTags { id } => StoreAnswerView::MealOptionWithTags(
                if self.options.contains_key(id) {
                    Some(MealOptionWithTagsView { option: self.options[id], tags: self.tags_of(id) })
                } else {
                    None
                },
            ),
            StoreQueryView::Tag { id } => StoreAnswerView::Tag(
                if self.tags.contains_key(id) {
                    Some(self.tags[id])
                } else {
                    None
                },
            ),
            StoreQueryView::WeeklyUsage { meal_option_id, week } => StoreAnswerView::WeeklyUsage(
                self.usage_found(meal_option_id, week),
            ),
            StoreQueryView::WeeklyTagUsage { tag_id, week } => StoreAnswerView::WeeklyTagUsage(
                self.tag_usage_found(tag_id, week),
            ),
        }
    }

    /// Where a check ends when each of its questions is answered from this state of
    /// the store.
    pub open spec fn run(self, check: ValidationView) -> OutcomeView
        decreases stage(check), questions_left(check),
    {
        match check {
            ValidationView::Finished { outcome } => outcome,
            _ => self.run(check.advance(self.answer(check.pending()->Some_0))),
        }
    }

    /// The first of `tags` that the store does not hold, if there is one.
    pub open spec fn first_missing_tag(self, tags: Seq<i64>) -> Option<i64>
        decreases tags.len(),
    {
        if tags.len() == 0 {
            None
        } else if !self.tags.contains_key(tags[0]) {
            Some(tags[0])
        } else {
            self.first_missing_tag(tags.remove(0))
        }
    }

    /// The warning for one tag: one if the tag has a weekly suggestion and its usage
    /// in the week has reached it.
    pub open spec fn tag_advice(self, tag_id: i64, week: Seq<char>) -> Option<
        ValidationWarningView,
    > {
        match self.tags[tag_id].weekly_suggestion {
            Some(suggestion) => suggestion_warning(
                self.tags[tag_id].display_name,
                suggestion,
                tag_usage_count(self.tag_usage_found(tag_id, week)),
            ),
            None => None,
        }
    }

    /// The warnings for `tags`, in the order of the tags.
    pub open spec fn tags_advice(self, tags: Seq<i64>, week: Seq<char>) -> Seq<
        ValidationWarningView,
    >
        decreases tags.len(),
    {
        if tags.len() == 0 {
            Seq::empty()
        } else {
            let rest = self.tags_advice(tags.remove(0), week);
            match self.tag_advice(tags[0], week) {
                Some(warning) => seq![warning] + rest,
                None => rest,
            }
        }
    }

    /// The outcome of the weekly limit for one more entry of an option: the option
    /// and its template must exist; where the template has a limit, the option's
    /// usage in the week must be below it.
    pub open spec fn weekly_limit_outcome(self, meal_option_id: i64, week: Seq<char>) -> Result<
        (),
        ValidationErrorView,
    > {
        if !self.options.contains_key(meal_option_id) {
            Err(missing(EntityKind::MealOption, meal_option_id))
        } else {
            let option = self.options[meal_option_id];
            if !self.templates.contains_key(option.template_id) {
                Err(missing(EntityKind::MealTemplate, option.template_id))
            } else {
                match self.templates[option.template_id].weekly_limit {
                    Some(limit) => limit_verdict(
                        option.name,
                        limit,
                        usage_count(self.usage_found(meal_option_id, week)),
                    ),
                    None => Ok(()),
                }
            }
        }
    }

    /// The outcome of the tag suggestions for one more entry of an option: the
    /// option and each of its tags must exist; the warnings are those of its tags.
    pub open spec fn tag_suggestions_outcome(self, meal_option_id: i64, week: Seq<char>)
        -> OutcomeView {
        if !self.options.contains_key(meal_option_id) {
            Err(missing(EntityKind::MealOption, meal_option_id))
        } else {
            match self.first_missing_tag(self.tags_of(meal_option_id)) {
                Some(tag_id) => Err(missing(EntityKind::Tag, tag_id)),
                None => Ok(self.tags_advice(self.tags_of(meal_option_id), week)),
            }
        }
    }

    /// The outcome of the validation of a meal entry: the option and its template
    /// must exist, the template must fill the slot, the weekly limit must hold, and
    /// only then are the tag suggestions looked at. A slot that the template cannot
    /// fill is refused under the option's name.
    pub open spec fn meal_entry_outcome(self, meal_option_id: i64, slot: SlotType, week: Seq<char>)
        -> OutcomeView {
        if !self.options.contains_key(meal_option_id) {
            Err(missing(EntityKind::MealOption, meal_option_id))
        } else {
            let option = self.options[meal_option_id];
            if !self.templates.contains_key(option.template_id) {
                Err(missing(EntityKind::MealTemplate, option.template_id))
            } else {
                let template = self.templates[option.template_id];
                match slot_verdict_for(option.name, template, slot) {
                    Err(error) => Err(error),
                    Ok(_) => match self.weekly_limit_outcome(meal_option_id, week) {
                        Err(error) => Err(error),
                        Ok(_) => self.tag_suggestions_outcome(meal_option_id, week),
                    },
                }
            }
        }
    }

    /// From the first of the tags on, a check ends in the failure for the first tag
    /// that the store does not hold, or in the warnings gathered so far followed by
    /// those of the tags.
    pub proof fn lemma_run_over_tags(
        self,
        tags: Seq<i64>,
        week: Seq<char>,
        warnings: Seq<ValidationWarningView>,
    )
        ensures
            self.run(next_tag(tags, week, warnings)) == match self.first_missing_tag(tags) {
                Some(tag_id) => Err::<Seq<ValidationWarningView>, ValidationErrorView>(
                    missing(EntityKind::Tag, tag_id),
                ),
                None => Ok(warnings + self.tags_advice(tags, week)),
            },
        decreases tags.len(),
    {
        if tags.len() == 0 {
            assert(warnings + self.tags_advice(tags, week) =~= warnings);
        } else {
            let tag_id = tags[0];
            let rest = tags.remove(0);
            let resolving = next_tag(tags, week, warnings);
            let answer = self.answer(resolving.pending()->Some_0);
            let resolved = resolving.advance(answer);
            assert(self.run(resolving) == self.run(resolved));
            if self.tags.contains_key(tag_id) {
                match self.tags[tag_id].weekly_suggestion {
                    Some(suggestion) => {
                        let counted = resolved.advance(self.answer(resolved.pending()->Some_0));
                        assert(self.run(resolved) == self.run(counted));
                        match self.tag_advice(tag_id, week) {
                            Some(warning) => {
                                self.lemma_run_over_tags(rest, week, warnings.push(warning));
                                assert(warnings.push(warning) + self.tags_advice(rest, week)
                                    =~= warnings + self.tags_advice(tags, week));
                            },
                            None => {
                                self.lemma_run_over_tags(rest, week, warnings);
                            },
                        }
                    },
                    None => {
                        self.lemma_run_over_tags(rest, week, warnings);
                    },
                }
            }
        }
    }

    /// The check of the tag suggestions ends in the outcome of the tag suggestions.
    pub proof fn lemma_check_tag_suggestions(self, meal_option_id: i64, week: Seq<char>)
        ensures
            self.run(ValidationView::ListingTags { meal_option_id, week })
                == self.tag_suggestions_outcome(meal_option_id, week),
    {
        let listing = ValidationView::ListingTags { meal_option_id, week };
        let listed = listing.advance(self.answer(listing.pending()->Some_0));
        assert(self.run(listing) == self.run(listed));
        if self.options.contains_key(meal_option_id) {
            let tags = self.tags_of(meal_option_id);
            self.lemma_run_over_tags(tags, week, Seq::empty());
            assert(Seq::<ValidationWarningView>::empty() + self.tags_advice(tags, week)
                =~= self.tags_advice(tags, week));
        }
    }

    /// The check of the weekly limit ends without warnings where the limit holds,
    /// and in the limit's failure where it does not.
    pub proof fn lemma_check_weekly_limit(self, meal_option_id: i64, week: Seq<char>)
        ensures
            self.run(
                ValidationView::ResolvingOption { plan: Plan::WeeklyLimit, meal_option_id, week },
            ) == match self.weekly_limit_outcome(meal_option_id, week) {
                Ok(_) => Ok::<Seq<ValidationWarningView>, ValidationErrorView>(Seq::empty()),
                Err(error) => Err(error),
            },
    {
        let plan = Plan::WeeklyLimit;
        let start = ValidationView::ResolvingOption { plan, meal_option_id, week };
        let resolved = start.advance(self.answer(start.pending()->Some_0));
        assert(self.run(start) == self.run(resolved));
        if self.options.contains_key(meal_option_id) {
            let option = self.options[meal_option_id];
            let templated = resolved.advance(self.answer(resolved.pending()->Some_0));
            assert(self.run(resolved) == self.run(templated));
            if self.templates.contains_key(option.template_id) {
                if self.templates[option.template_id].weekly_limit is Some {
                    let counted = templated.advance(self.answer(templated.pending()->Some_0));
                    assert(self.run(templated) == self.run(counted));
                }
            }
        }
    }

    /// The validation of a meal entry ends in the outcome of the validation.
    pub proof fn lemma_validate_meal_entry(
        self,
        meal_option_id: i64,
        slot: SlotType,
        week: Seq<char>,
    )
        ensures
            self.run(
                ValidationView::ResolvingOption {
                    plan: Plan::MealEntry { slot },
                    meal_option_id,
                    week,
                },
            ) == self.meal_entry_outcome(meal_option_id, slot, week),
    {
        let plan = Plan::MealEntry { slot };
        let start = ValidationView::ResolvingOption { plan, meal_option_id, week };
        let resolved = start.advance(self.answer(start.pending()->Some_0));
        assert(self.run(start) == self.run(resolved));
        if self.options.contains_key(meal_option_id) {
            let option = self.options[meal_option_id];
            let templated = resolved.advance(self.answer(resolved.pending()->Some_0));
            assert(self.run(resolved) == self.run(templated));
            if self.templates.contains_key(option.template_id) {
                let template = self.templates[option.template_id];
                if slot_verdict_for(option.name, template, slot) is Ok {
                    self.lemma_check_tag_suggestions(meal_option_id, week);
                    if template.weekly_limit is Some {
                        let counted = templated.advance(self.answer(templated.pending()->Some_0));
                        assert(self.run(templated) == self.run(counted));
                    }
                }
            }
        }
    }

    /// Where the template of an option cannot fill a slot, the validation of a meal
    /// entry for that slot fails, whatever the week's usage: with the option's name,
    /// the slot, and all the slots that the template can fill.
    pub proof fn lemma_incompatible_slot_names_the_option(
        self,
        meal_option_id: i64,
        slot: SlotType,
        week: Seq<char>,
    )
        requires
            self.options.contains_key(meal_option_id),
            self.templates.contains_key(self.options[meal_option_id].template_id),
            !self.templates[self.options[meal_option_id].template_id].fills(slot),
        ensures
            self.run(
                ValidationView::ResolvingOption {
                    plan: Plan::MealEntry { slot },
                    meal_option_id,
                    week,
                },
            ) == Err::<Seq<ValidationWarningView>, ValidationErrorView>(
                ValidationErrorView::IncompatibleSlot {
                    option_name: self.options[meal_option_id].name,
                    slot,
                    compatible_slots: self.templates[self.options[meal_option_id].template_id].compatible_slots,
                },
            ),
    {
        self.lemma_validate_meal_entry(meal_option_id, slot, week);
    }

    /// Every tag gives at most one warning, and the warnings keep the order of the
    /// tags: those of the first tag come before those of the tags after it.
    pub proof fn lemma_tags_advice(self, tags: Seq<i64>, week: Seq<char>)
        ensures
            self.tags_advice(tags, week).len() <= tags.len(),
            tags.len() > 0 ==> self.tags_advice(tags, week) == (match self.tag_advice(
                tags[0],
                week,
            ) {
                Some(warning) => seq![warning],
                None => Seq::empty(),
            }) + self.tags_advice(tags.remove(0), week),
        decreases tags.len(),
    {
        if tags.len() > 0 {
            self.lemma_tags_advice(tags.remove(0), week);
            let rest = self.tags_advice(tags.remove(0), week);
            assert(Seq::<ValidationWarningView>::empty() + rest =~= rest);
        }
    }

    /// Where each of an option's tags has a weekly suggestion that its usage in the
    /// week has reached, the check of the tag suggestions succeeds with one warning
    /// for each tag, in the order of the tags, each with the tag's display name, its
    /// suggestion and its usage.
    pub proof fn lemma_every_tag_at_its_suggestion_warns(
        self,
        meal_option_id: i64,
        week: Seq<char>,
    )
        requires
            self.options.contains_key(meal_option_id),
            forall|i: int|
                0 <= i < self.tags_of(meal_option_id).len() ==> self.tag_at_suggestion(
                    #[trigger] self.tags_of(meal_option_id)[i],
                    week,
                ),
        ensures
            self.tag_suggestions_outcome(meal_option_id, week) matches Ok(warnings)
                && warnings.len() == self.tags_of(meal_option_id).len() && forall|i: int|
                0 <= i < warnings.len() ==> Some(#[trigger] warnings[i]) == self.tag_advice(
                    self.tags_of(meal_option_id)[i],
                    week,
                ),
            self.run(ValidationView::ListingTags { meal_option_id, week })
                == self.tag_suggestions_outcome(meal_option_id, week),
    {
        self.lemma_all_tags_warn(self.tags_of(meal_option_id), week);
        self.lemma_check_tag_suggestions(meal_option_id, week);
    }

    /// A tag that the store holds, with a weekly suggestion that its usage in the
    /// week has reached.
    pub open spec fn tag_at_suggestion(self, tag_id: i64, week: Seq<char>) -> bool {
        &&& self.tags.contains_key(tag_id)
        &&& self.tags[tag_id].weekly_suggestion matches Some(suggestion)
        &&& tag_usage_count(self.tag_usage_found(tag_id, week)) >= suggestion
    }

    proof fn lemma_all_tags_warn(self, tags: Seq<i64>, week: Seq<char>)
        requires
            forall|i: int| 0 <= i < tags.len() ==> self.tag_at_suggestion(#[trigger] tags[i], week),
        ensures
            self.first_missing_tag(tags) is None,
            self.tags_advice(tags, week).len() == tags.len(),
            forall|i: int|
                0 <= i < tags.len() ==> Some(#[trigger] self.tags_advice(tags, week)[i])
                    == self.tag_advice(tags[i], week),
        decreases tags.len(),
    {
        if tags.len() > 0 {
            let rest = tags.remove(0);
            assert forall|i: int| 0 <= i < rest.len() implies self.tag_at_suggestion(
                #[trigger] rest[i],
                week,
            ) by {
                assert(rest[i] == tags[i + 1]);
            }
            self.lemma_all_tags_warn(rest, week);
            assert(self.tag_at_suggestion(tags[0], week));
            let advice = self.tags_advice(tags, week);
            assert forall|i: int| 0 <= i < tags.len() implies Some(#[trigger] advice[i])
                == self.tag_advice(tags[i], week) by {
                if i > 0 {
                    assert(advice[i] == self.tags_advice(rest, week)[i - 1]);
                    assert(rest[i - 1] == tags[i]);
                }
            }
        }
    }

    /// Without a weekly limit on the template, the weekly limit holds whatever usage
    /// the store counts.
    pub proof fn lemma_no_limit_never_fails(self, meal_option_id: i64, week: Seq<char>)
        requires
            self.options.contains_key(meal_option_id),
            self.templates.contains_key(self.options[meal_option_id].template_id),
            self.templates[self.options[meal_option_id].template_id].weekly_limit is None,
        ensures
            self.weekly_limit_outcome(meal_option_id, week) is Ok,
            self.run(
                ValidationView::ResolvingOption { plan: Plan::WeeklyLimit, meal_option_id, week },
            ) is Ok,
    {
        self.lemma_check_weekly_limit(meal_option_id, week);
    }

    /// With a weekly limit on the template, the weekly limit holds exactly while the
    /// usage that the store counts is below the limit; the failure carries the
    /// option's name, the limit and that usage.
    pub proof fn lemma_limit_boundary(self, meal_option_id: i64, week: Seq<char>, limit: i32)
        requires
            self.options.contains_key(meal_option_id),
            self.templates.contains_key(self.options[meal_option_id].template_id),
            self.templates[self.options[meal_option_id].template_id].weekly_limit == Some(limit),
        ensures
            self.weekly_limit_outcome(meal_option_id, week) is Ok <==> usage_count(
                self.usage_found(meal_option_id, week),
            ) < limit,
            self.weekly_limit_outcome(meal_option_id, week) matches Err(error) ==> error == (
            ValidationErrorView::WeeklyLimitExceeded {
                item_name: self.options[meal_option_id].name,
                limit,
                current_usage: usage_count(self.usage_found(meal_option_id, week)),
            }),
    {
    }
}

/// How far a check has come: the later the stage, the smaller the number.
pub open spec fn stage(check: ValidationView) -> nat {
    match check {
        ValidationView::ResolvingOption { .. } => 5,
        ValidationView::ResolvingTemplate { .. } => 4,
        ValidationView::CountingUsage { .. } => 3,
        ValidationView::ListingTags { .. } => 2,
        ValidationView::ResolvingTag { .. } => 1,
        ValidationView::CountingTagUsage { .. } => 1,
        ValidationView::Finished { .. } => 0,
    }
}

/// The most questions that a check may still ask about its tags.
pub open spec fn questions_left(check: ValidationView) -> nat {
    match check {
        ValidationView::ResolvingTag { remaining, .. } => 2 * remaining.len() + 2,
        ValidationView::CountingTagUsage { remaining, .. } => 2 * remaining.len() + 1,
        _ => 0,
    }
}

/// Every answer to the question that a check waits on brings the check forward: to
/// a later stage, or to fewer questions about its tags.
pub proof fn lemma_advance_makes_progress(check: ValidationView, store: StoreModel)
    requires
        !(check is Finished),
    ensures
        ({
            let next = check.advance(store.answer(check.pending()->Some_0));
            stage(next) < stage(check) || (stage(next) == stage(check) && questions_left(next)
                < questions_left(check))
        }),
{
}

} // verus!
