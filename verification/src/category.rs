//! The nine statistic categories and their short codes.

use vstd::prelude::*;
use crate::text::str_eq;

verus! {

/// A kind of statistic that the game keeps per player.
#[derive(Clone, Copy, Debug, PartialEq, Eq, Structural)]
pub enum Category {
    Mined,
    Crafted,
    Used,
    Broken,
    Dropped,
    PickedUp,
    Killed,
    KilledBy,
    Custom,
}

impl Category {
    /// The abbreviation that stands for the category in objective names.
    pub open spec fn code(self) -> Seq<char> {
        match self {
            Category::Mined => "m"@,
            Category::Crafted => "c"@,
            Category::Used => "u"@,
            Category::Broken => "b"@,
            Category::Dropped => "d"@,
            Category::PickedUp => "p"@,
            Category::Killed => "k"@,
            Category::KilledBy => "kb"@,
            Category::Custom => "z"@,
        }
    }

    /// The name under which a schema lists the category.
    pub open spec fn criterion(self) -> Seq<char> {
        match self {
            Category::Mined => "minecraft.mined"@,
            Category::Crafted => "minecraft.crafted"@,
            Category::Used => "minecraft.used"@,
            Category::Broken => "minecraft.broken"@,
            Category::Dropped => "minecraft.dropped"@,
            Category::PickedUp => "minecraft.picked_up"@,
            Category::Killed => "minecraft.killed"@,
            Category::KilledBy => "minecraft.killed_by"@,
            Category::Custom => "minecraft.custom"@,
        }
    }

    /// The category listed under `name`, if `name` is one of the nine
    /// criterion names.
    pub open spec fn of_criterion(name: Seq<char>) -> Option<Category> {
        if name == Category::Mined.criterion() {
            Some(Category::Mined)
        } else if name == Category::Crafted.criterion() {
            Some(Category::Crafted)
        } else if name == Category::Used.criterion() {
            Some(Category::Used)
        } else if name == Category::Broken.criterion() {
            Some(Category::Broken)
        } else if name == Category::Dropped.criterion() {
            Some(Category::Dropped)
        } else if name == Category::PickedUp.criterion() {
            Some(Category::PickedUp)
        } else if name == Category::Killed.criterion() {
            Some(Category::Killed)
        } else if name == Category::KilledBy.criterion() {
            Some(Category::KilledBy)
        } else if name == Category::Custom.criterion() {
            Some(Category::Custom)
        } else {
            None
        }
    }

    pub fn short_code(self) -> (code: &'static str)
        ensures
            code@ == self.code(),
    {
        match self {
            Category::Mined => "m",
            Category::Crafted => "c",
            Category::Used => "u",
            Category::Broken => "b",
            Category::Dropped => "d",
            Category::PickedUp => "p",
            Category::Killed => "k",
            Category::KilledBy => "kb",
            Category::Custom => "z",
        }
    }

    pub fn criterion_name(self) -> (name: &'static str)
        ensures
            name@ == self.criterion(),
    {
        match self {
            Category::Mined => "minecraft.mined",
            Category::Crafted => "minecraft.crafted",
            Category::Used => "minecraft.used",
            Category::Broken => "minecraft.broken",
            Category::Dropped => "minecraft.dropped",
            Category::PickedUp => "minecraft.picked_up",
            Category::Killed => "minecraft.killed",
            Category::KilledBy => "minecraft.killed_by",
            Category::Custom => "minecraft.custom",
        }
    }

    /// Looks a criterion name up among the nine categories.
    pub fn from_criterion(name: &str) -> (found: Option<Category>)
        ensures
            found == Category::of_criterion(name@),
    {
        if str_eq(name, Category::Mined.criterion_name()) {
            Some(Category::Mined)
        } else if str_eq(name, Category::Crafted.criterion_name()) {
            Some(Category::Crafted)
        } else if str_eq(name, Category::Used.criterion_name()) {
            Some(Category::Used)
        } else if str_eq(name, Category::Broken.criterion_name()) {
            Some(Category::Broken)
        } else if str_eq(name, Category::Dropped.criterion_name()) {
            Some(Category::Dropped)
        } else if str_eq(name, Category::PickedUp.criterion_name()) {
            Some(Category::PickedUp)
        } else if str_eq(name, Category::Killed.criterion_name()) {
            Some(Category::Killed)
        } else if str_eq(name, Category::KilledBy.criterion_name()) {
            Some(Category::KilledBy)
        } else if str_eq(name, Category::Custom.criterion_name()) {
            Some(Category::Custom)
        } else {
            None
        }
    }
}

} // verus!
