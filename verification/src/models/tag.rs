//! Tags: what a meal option is made of or suited for, with an optional soft cap on
//! how often it should occur in one week.

use vstd::prelude::*;
use vstd::string::StringExecFns;

use crate::models::enums::TagCategory;
use crate::models::patch::Patch;
use crate::models::timestamp::Timestamp;
use crate::text::{is_blank, str_is_blank};

verus! {

/// A tag.
#[derive(Debug, Clone, PartialEq)]
pub struct Tag {
    pub id: i64,
    /// The internal key, such as "pasta".
    pub name: String,
    /// What the user sees, such as "Pasta".
    pub display_name: String,
    pub category: TagCategory,
    /// How often per week the tag should occur at most; `None` for no advice.
    pub weekly_suggestion: Option<i32>,
    /// The tag above this one, as "pasta" is above "pasta_integrale".
    pub parent_tag_id: Option<i64>,
    pub created_at: Timestamp,
}

/// A `Tag` with its texts as sequences of characters.
pub struct TagView {
    pub id: i64,
    pub name: Seq<char>,
    pub display_name: Seq<char>,
    pub category: TagCategory,
    pub weekly_suggestion: Option<i32>,
    pub parent_tag_id: Option<i64>,
    pub created_at: Timestamp,
}

impl View for Tag {
    type V = TagView;

    open spec fn view(&self) -> TagView {
        TagView {
            id: self.id,
            name: self.name@,
            display_name: self.display_name@,
            category: self.category,
            weekly_suggestion: self.weekly_suggestion,
            parent_tag_id: self.parent_tag_id,
            created_at: self.created_at,
        }
    }
}

impl DeepView for Tag {
    type V = TagView;

    open spec fn deep_view(&self) -> TagView {
        self@
    }
}

/// What is needed to create a tag.
#[derive(Debug, Clone)]
pub struct CreateTag {
    pub name: String,
    pub display_name: String,
    pub category: TagCategory,
    pub weekly_suggestion: Option<i32>,
    pub parent_tag_id: Option<i64>,
}

/// A change to a tag. `None` leaves a field as it is.
#[derive(Debug, Clone)]
pub struct UpdateTag {
    pub display_name: Option<String>,
    pub category: Option<TagCategory>,
    pub weekly_suggestion: Patch<i32>,
    pub parent_tag_id: Patch<i64>,
}

/// The characters of an internal key: the lower-case letters `a` to `z` and the
/// underscore.
pub open spec fn is_key_char(c: char) -> bool {
    ('a' <= c && c <= 'z') || c == '_'
}

/// A text made of key characters only.
pub open spec fn is_key(s: Seq<char>) -> bool {
    forall|i: int| 0 <= i < s.len() ==> is_key_char(#[trigger] s[i])
}

fn str_is_key(s: &str) -> (r: bool)
    ensures
        r == is_key(s@),
{
    for c in it: s.chars()
        invariant
            it.seq() == s@,
            is_key(s@.take(it.index() as int)),
    {
        if !(('a' <= c && c <= 'z') || c == '_') {
            assert(s@[it.index() as int] == c);
            return false;
        }
        assert forall|i: int| 0 <= i < it.index() + 1 implies is_key_char(
            #[trigger] s@.take(it.index() + 1)[i],
        ) by {
            if i < it.index() {
                assert(s@.take(it.index() as int)[i] == s@[i]);
            }
        }
    }
    assert(s@.take(s@.len() as int) =~= s@);
    true
}

impl CreateTag {
    /// Why the input is refused, if it is: the first of the rules it breaks.
    pub open spec fn refusal(self) -> Option<Seq<char>> {
        if is_blank(self.name@) {
            Some("Tag name cannot be empty"@)
        } else if is_blank(self.display_name@) {
            Some("Tag display name cannot be empty"@)
        } else if !is_key(self.name@) {
            Some("Tag name must be lowercase with underscores only"@)
        } else if self.weekly_suggestion matches Some(suggestion) && suggestion < 0 {
            Some("Weekly suggestion cannot be negative"@)
        } else {
            None
        }
    }

    /// Checks that neither name is blank, that the internal name is a key, and that
    /// a weekly suggestion, if there is one, is not negative.
    pub fn validate(&self) -> (r: Result<(), String>)
        ensures
            r is Ok <==> self.refusal() is None,
            r matches Err(message) ==> self.refusal() == Some(message@),
    {
        if str_is_blank(self.name.as_str()) {
            return Err(String::from_str("Tag name cannot be empty"));
        }
        if str_is_blank(self.display_name.as_str()) {
            return Err(String::from_str("Tag display name cannot be empty"));
        }
        if !str_is_key(self.name.as_str()) {
            return Err(String::from_str("Tag name must be lowercase with underscores only"));
        }
        if let Some(suggestion) = self.weekly_suggestion {
            if suggestion < 0 {
                return Err(String::from_str("Weekly suggestion cannot be negative"));
            }
        }
        Ok(())
    }
}

} // verus!
