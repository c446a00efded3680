//! Meal templates in the store.

use vstd::prelude::*;

use crate::models::enums::SlotType;
use crate::models::meal_template::{MealTemplate, MealTemplateView, UpdateMealTemplate};

verus! {

/// The repository of meal templates.
pub struct MealTemplateRepository;

impl MealTemplateRepository {
    /// Of `templates`, those that can fill `slot`, in the order in which they came.
    pub fn compatible_with_slot(templates: Vec<MealTemplate>, slot: SlotType) -> (kept: Vec<
        MealTemplate,
    >)
        ensures
            kept.deep_view() == templates.deep_view().filter(
                |template: MealTemplateView| template.fills(slot),
            ),
    {
        let ghost fits = |template: MealTemplateView| template.fills(slot);
        let ghost all = templates.deep_view();
        let mut kept: Vec<MealTemplate> = Vec::new();
        let mut rest = templates;
        proof {
            assert(kept.deep_view() =~= Seq::empty());
            assert(Seq::<MealTemplateView>::empty() + all.filter(fits) =~= all.filter(fits));
        }
        while rest.len() > 0
            invariant
                fits == (|template: MealTemplateView| template.fills(slot)),
                kept.deep_view() + rest.deep_view().filter(fits) == all.filter(fits),
            decreases rest.len(),
        {
            let ghost before = rest.deep_view();
            let ghost kept_before = kept.deep_view();
            let template = rest.remove(0);
            proof {
                assert(rest.deep_view() =~= before.remove(0));
                assert(before =~= seq![template@] + rest.deep_view());
                rest.deep_view().lemma_filter_prepend(template@, fits);
            }
            if template.fills(slot) {
                kept.push(template);
                assert(kept.deep_view() =~= kept_before.push(template@));
                assert(kept.deep_view() + rest.deep_view().filter(fits) =~= kept_before
                    + before.filter(fits));
            } else {
                assert(kept.deep_view() + rest.deep_view().filter(fits) =~= kept_before
                    + before.filter(fits));
            }
        }
        proof {
            assert(rest.deep_view() =~= Seq::empty());
            rest.deep_view().lemma_filter_len(fits);
            assert(kept.deep_view() + rest.deep_view().filter(fits) =~= kept.deep_view());
        }
        kept
    }

    /// The template that an update makes of an existing one: the fields that the
    /// update names get their new values, and every other field stays. An update
    /// never changes a template's id or the time of its creation; the time of its
    /// last change is the store's to set.
    pub fn updated(existing: MealTemplate, update: UpdateMealTemplate) -> (template: MealTemplate)
        ensures
            template.id == existing.id,
            template.name@ == match update.name {
                Some(name) => name@,
                None => existing.name@,
            },
            template.description.deep_view() == update.description.deep_view().applied(
                existing.description.deep_view(),
            ),
            template.compatible_slots@ == match update.compatible_slots {
                Some(slots) => slots@,
                None => existing.compatible_slots@,
            },
            template.location_type == match update.location_type {
                Some(location_type) => location_type,
                None => existing.location_type,
            },
            template.weekly_limit == update.weekly_limit.applied(existing.weekly_limit),
            template.created_at == existing.created_at,
            template.updated_at == existing.updated_at,
    {
        MealTemplate {
            id: existing.id,
            name: match update.name {
                Some(name) => name,
                None => existing.name,
            },
            description: update.description.apply(existing.description),
            compatible_slots: match update.compatible_slots {
                Some(slots) => slots,
                None => existing.compatible_slots,
            },
            location_type: match update.location_type {
                Some(location_type) => location_type,
                None => existing.location_type,
            },
            weekly_limit: update.weekly_limit.apply(existing.weekly_limit),
            created_at: existing.created_at,
            updated_at: existing.updated_at,
        }
    }
}

} // verus!
