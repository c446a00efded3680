//! Fixed vocabularies: meal slots, locations and tag categories, each with the
//! text under which the store keeps it.

use vstd::prelude::*;
use vstd::string::StringExecFns;

use crate::text::str_eq;

verus! {

/// The five fixed meal slots per day.
#[derive(Debug, Clone, Copy, PartialEq, Eq, Structural)]
pub enum SlotType {
    Breakfast,
    MorningSnack,
    Lunch,
    AfternoonSnack,
    Dinner,
}

/// Where a meal can be prepared or eaten.
#[derive(Debug, Clone, Copy, PartialEq, Eq, Structural)]
pub enum LocationType {
    Home,
    Office,
    Restaurant,
    /// For meals that work anywhere.
    Any,
}

/// What a tag says of a meal option.
#[derive(Debug, Clone, Copy, PartialEq, Eq, Structural)]
pub enum TagCategory {
    Ingredient,
    Dietary,
    PrepTime,
    Other,
}

/// The text of a rejected input: what was expected, then the input itself.
pub open spec fn rejection_text(what: Seq<char>, input: Seq<char>) -> Seq<char> {
    what + input
}

fn rejection(what: &str, input: &str) -> (message: String)
    ensures
        message@ == rejection_text(what@, input@),
{
    let mut message = String::from_str(what);
    message.append(input);
    message
}

impl SlotType {
    /// The text under which the store keeps the slot.
    pub open spec fn db_text(self) -> Seq<char> {
        match self {
            SlotType::Breakfast => "breakfast"@,
            SlotType::MorningSnack => "morning_snack"@,
            SlotType::Lunch => "lunch"@,
            SlotType::AfternoonSnack => "afternoon_snack"@,
            SlotType::Dinner => "dinner"@,
        }
    }

    /// The name of the slot, as it is written in messages.
    pub open spec fn name_text(self) -> Seq<char> {
        match self {
            SlotType::Breakfast => "Breakfast"@,
            SlotType::MorningSnack => "MorningSnack"@,
            SlotType::Lunch => "Lunch"@,
            SlotType::AfternoonSnack => "AfternoonSnack"@,
            SlotType::Dinner => "Dinner"@,
        }
    }

    /// The name of the slot, as it is written in messages.
    pub fn name(&self) -> (text: &'static str)
        ensures
            text@ == self.name_text(),
    {
        match self {
            SlotType::Breakfast => "Breakfast",
            SlotType::MorningSnack => "MorningSnack",
            SlotType::Lunch => "Lunch",
            SlotType::AfternoonSnack => "AfternoonSnack",
            SlotType::Dinner => "Dinner",
        }
    }

    /// The slots of a day, in the order of the day.
    pub open spec fn all_slots() -> Seq<SlotType> {
        seq![
            SlotType::Breakfast,
            SlotType::MorningSnack,
            SlotType::Lunch,
            SlotType::AfternoonSnack,
            SlotType::Dinner,
        ]
    }

    /// All slots, in the order of the day.
    pub fn all() -> (slots: [SlotType; 5])
        ensures
            slots@ == Self::all_slots(),
    {
        let slots = [
            SlotType::Breakfast,
            SlotType::MorningSnack,
            SlotType::Lunch,
            SlotType::AfternoonSnack,
            SlotType::Dinner,
        ];
        assert(slots@ =~= Self::all_slots());
        slots
    }

    /// The text under which the store keeps the slot.
    pub fn to_db_string(&self) -> (text: &'static str)
        ensures
            text@ == self.db_text(),
    {
        match self {
            SlotType::Breakfast => "breakfast",
            SlotType::MorningSnack => "morning_snack",
            SlotType::Lunch => "lunch",
            SlotType::AfternoonSnack => "afternoon_snack",
            SlotType::Dinner => "dinner",
        }
    }

    /// The slot that the store keeps under `s`, or a message that names `s` where
    /// there is none.
    pub fn from_db_string(s: &str) -> (r: Result<SlotType, String>)
        ensures
            r matches Ok(slot) ==> slot.db_text() == s@,
            r matches Err(message) ==> (forall|slot: SlotType| slot.db_text() != s@) && message@
                == rejection_text("Invalid slot type: "@, s@),
    {
        if str_eq(s, "breakfast") {
            Ok(SlotType::Breakfast)
        } else if str_eq(s, "morning_snack") {
            Ok(SlotType::MorningSnack)
        } else if str_eq(s, "lunch") {
            Ok(SlotType::Lunch)
        } else if str_eq(s, "afternoon_snack") {
            Ok(SlotType::AfternoonSnack)
        } else if str_eq(s, "dinner") {
            Ok(SlotType::Dinner)
        } else {
            Err(rejection("Invalid slot type: ", s))
        }
    }

    /// Different slots are kept under different texts, so reading back what was
    /// written gives the slot that was written.
    pub proof fn lemma_db_text_injective(a: SlotType, b: SlotType)
        requires
            a.db_text() == b.db_text(),
        ensures
            a == b,
    {
        reveal_strlit("breakfast");
        reveal_strlit("morning_snack");
        reveal_strlit("lunch");
        reveal_strlit("afternoon_snack");
        reveal_strlit("dinner");
        assert("breakfast"@.len() == 9 && "morning_snack"@.len() == 13 && "lunch"@.len() == 5
            && "afternoon_snack"@.len() == 15 && "dinner"@.len() == 6);
    }
}

impl LocationType {
    /// The text under which the store keeps the location.
    pub open spec fn db_text(self) -> Seq<char> {
        match self {
            LocationType::Home => "home"@,
            LocationType::Office => "office"@,
            LocationType::Restaurant => "restaurant"@,
            LocationType::Any => "any"@,
        }
    }

    /// The text under which the store keeps the location.
    pub fn to_db_string(&self) -> (text: &'static str)
        ensures
            text@ == self.db_text(),
    {
        match self {
            LocationType::Home => "home",
            LocationType::Office => "office",
            LocationType::Restaurant => "restaurant",
            LocationType::Any => "any",
        }
    }

    /// The location that the store keeps under `s`, or a message that names `s`
    /// where there is none.
    pub fn from_db_string(s: &str) -> (r: Result<LocationType, String>)
        ensures
            r matches Ok(location) ==> location.db_text() == s@,
            r matches Err(message) ==> (forall|location: LocationType| location.db_text() != s@)
                && message@ == rejection_text("Invalid location type: "@, s@),
    {
        if str_eq(s, "home") {
            Ok(LocationType::Home)
        } else if str_eq(s, "office") {
            Ok(LocationType::Office)
        } else if str_eq(s, "restaurant") {
            Ok(LocationType::Restaurant)
        } else if str_eq(s, "any") {
            Ok(LocationType::Any)
        } else {
            Err(rejection("Invalid location type: ", s))
        }
    }

    /// Two locations are compatible if they are the same or one of them is `Any`.
    pub open spec fn compatible(self, other: LocationType) -> bool {
        self == LocationType::Any || other == LocationType::Any || self == other
    }

    /// Whether a meal for this location can be had at `other`.
    pub fn is_compatible_with(&self, other: LocationType) -> (r: bool)
        ensures
            r == self.compatible(other),
    {
        *self == LocationType::Any || other == LocationType::Any || *self == other
    }

    /// Different locations are kept under different texts.
    pub proof fn lemma_db_text_injective(a: LocationType, b: LocationType)
        requires
            a.db_text() == b.db_text(),
        ensures
            a == b,
    {
        reveal_strlit("home");
        reveal_strlit("office");
        reveal_strlit("restaurant");
        reveal_strlit("any");
        assert("home"@.len() == 4 && "office"@.len() == 6 && "restaurant"@.len() == 10 && "any"@.len()
            == 3);
    }
}

impl TagCategory {
    /// The text under which the store keeps the category.
    pub open spec fn db_text(self) -> Seq<char> {
        match self {
            TagCategory::Ingredient => "ingredient"@,
            TagCategory::Dietary => "dietary"@,
            TagCategory::PrepTime => "prep_time"@,
            TagCategory::Other => "other"@,
        }
    }

    /// The text under which the store keeps the category.
    pub fn to_db_string(&self) -> (text: &'static str)
        ensures
            text@ == self.db_text(),
    {
        match self {
            TagCategory::Ingredient => "ingredient",
            TagCategory::Dietary => "dietary",
            TagCategory::PrepTime => "prep_time",
            TagCategory::Other => "other",
        }
    }

    /// The category that the store keeps under `s`, or a message that names `s`
    /// where there is none.
    pub fn from_db_string(s: &str) -> (r: Result<TagCategory, String>)
        ensures
            r matches Ok(category) ==> category.db_text() == s@,
            r matches Err(message) ==> (forall|category: TagCategory| category.db_text() != s@)
                && message@ == rejection_text("Invalid tag category: "@, s@),
    {
        if str_eq(s, "ingredient") {
            Ok(TagCategory::Ingredient)
        } else if str_eq(s, "dietary") {
            Ok(TagCategory::Dietary)
        } else if str_eq(s, "prep_time") {
            Ok(TagCategory::PrepTime)
        } else if str_eq(s, "other") {
            Ok(TagCategory::Other)
        } else {
            Err(rejection("Invalid tag category: ", s))
        }
    }

    /// Different categories are kept under different texts.
    pub proof fn lemma_db_text_injective(a: TagCategory, b: TagCategory)
        requires
            a.db_text() == b.db_text(),
        ensures
            a == b,
    {
        reveal_strlit("ingredient");
        reveal_strlit("dietary");
        reveal_strlit("prep_time");
        reveal_strlit("other");
        assert("ingredient"@.len() == 10 && "dietary"@.len() == 7 && "prep_time"@.len() == 9
            && "other"@.len() == 5);
    }
}

} // verus!
