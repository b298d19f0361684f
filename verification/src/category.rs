//! The categories of items, and how an item's name selects one.

use vstd::prelude::*;
use crate::text::same_text;

verus! {

/// Name of the item whose quality rises as it ages.
pub const AGED_BRIE_ITEM: &'static str = "Aged Brie";

/// Name of the item whose quality rises towards the event and is gone after it.
pub const BACKSTAGE_PASSES_ITEM: &'static str = "Backstage passes to a TAFKAL80ETC concert";

/// An everyday item; its name is not a category label.
pub const COMMON_ITEM: &'static str = "Elixir of the Mongoose";

/// Name of the item that degrades twice as fast as an everyday one.
pub const CONJURED_ITEM: &'static str = "Conjured Mana Cake";

/// Name of the item that never changes.
pub const LEGENDARY_ITEM: &'static str = "Sulfuras, Hand of Ragnaros";

/// The rule set an item is updated by.
#[derive(Clone, Copy, Debug, PartialEq, Eq, Structural)]
pub enum Category {
    /// Loses quality every day, twice as much once the sell-by date has passed.
    Normal,
    /// Gains quality every day, twice as much once the sell-by date has passed.
    AgedBrie,
    /// Gains quality faster as the date approaches; worthless afterwards.
    BackstagePasses,
    /// Loses quality twice as fast as a normal item.
    Conjured,
    /// Never changes.
    Legendary,
}

/// The category that a name selects: a label selects its own category by exact
/// match, every other name the normal one.
pub open spec fn category_of(name: Seq<char>) -> Category {
    if name == LEGENDARY_ITEM@ {
        Category::Legendary
    } else if name == AGED_BRIE_ITEM@ {
        Category::AgedBrie
    } else if name == BACKSTAGE_PASSES_ITEM@ {
        Category::BackstagePasses
    } else if name == CONJURED_ITEM@ {
        Category::Conjured
    } else {
        Category::Normal
    }
}

impl Category {
    /// The category of an item called `name`.
    pub fn of_name(name: &str) -> (category: Category)
        ensures
            category == category_of(name@),
    {
        if same_text(name, LEGENDARY_ITEM) {
            Category::Legendary
        } else if same_text(name, AGED_BRIE_ITEM) {
            Category::AgedBrie
        } else if same_text(name, BACKSTAGE_PASSES_ITEM) {
            Category::BackstagePasses
        } else if same_text(name, CONJURED_ITEM) {
            Category::Conjured
        } else {
            Category::Normal
        }
    }
}

/// Each label selects its own category, and the everyday item the normal one.
pub proof fn lemma_labels_select_their_category()
    ensures
        category_of(LEGENDARY_ITEM@) == Category::Legendary,
        category_of(AGED_BRIE_ITEM@) == Category::AgedBrie,
        category_of(BACKSTAGE_PASSES_ITEM@) == Category::BackstagePasses,
        category_of(CONJURED_ITEM@) == Category::Conjured,
        category_of(COMMON_ITEM@) == Category::Normal,
{
    reveal_strlit("Aged Brie");
    reveal_strlit("Backstage passes to a TAFKAL80ETC concert");
    reveal_strlit("Elixir of the Mongoose");
    reveal_strlit("Conjured Mana Cake");
    reveal_strlit("Sulfuras, Hand of Ragnaros");
    assert(AGED_BRIE_ITEM@.len() == 9);
    assert(BACKSTAGE_PASSES_ITEM@.len() == 41);
    assert(COMMON_ITEM@.len() == 22);
    assert(CONJURED_ITEM@.len() == 18);
    assert(LEGENDARY_ITEM@.len() == 26);
}

} // verus!
