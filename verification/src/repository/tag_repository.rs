//! Tags in the store.

use vstd::prelude::*;

use crate::models::tag::{Tag, UpdateTag};

verus! {

/// The repository of tags.
pub struct TagRepository;

impl TagRepository {
    /// The tag that an update makes of an existing one: the fields that the update
    /// names get their new values, and every other field stays. An update never
    /// changes a tag's id, its internal name or the time of its creation.
    pub fn updated(existing: Tag, update: UpdateTag) -> (tag: Tag)
        ensures
            tag.id == existing.id,
            tag.name@ == existing.name@,
            tag.display_name@ == match update.display_name {
                Some(display_name) => display_name@,
                None => existing.display_name@,
            },
            tag.category == match update.category {
                Some(category) => category,
                None => existing.category,
            },
            tag.weekly_suggestion == update.weekly_suggestion.applied(existing.weekly_suggestion),
            tag.parent_tag_id == update.parent_tag_id.applied(existing.parent_tag_id),
            tag.created_at == existing.created_at,
    {
        Tag {
            id: existing.id,
            name: existing.name,
            display_name: match update.display_name {
                Some(display_name) => display_name,
                None => existing.display_name,
            },
            category: match update.category {
                Some(category) => category,
                None => existing.category,
            },
            weekly_suggestion: update.weekly_suggestion.apply(existing.weekly_suggestion),
            parent_tag_id: update.parent_tag_id.apply(existing.parent_tag_id),
            created_at: existing.created_at,
        }
    }
}

} // verus!
