//! The inventory and the passing of a day.

use vstd::prelude::*;
use crate::category::Category;
use crate::item::{Item, ItemView};
use crate::rules::{
    clamp_quality, next_quality, MAXIMUM_ALLOWED_QUALITY, MINIMUM_ALLOWED_QUALITY,
};

verus! {

/// The items one day later, each in its place.
pub open spec fn advance_all(items: Seq<ItemView>) -> Seq<ItemView> {
    Seq::new(items.len(), |i: int| items[i].next_day())
}

/// The items `days` days later.
pub open spec fn advance_all_by(items: Seq<ItemView>, days: nat) -> Seq<ItemView>
    decreases days,
{
    if days == 0 {
        items
    } else {
        advance_all_by(advance_all(items), (days - 1) as nat)
    }
}

/// The shop: the owner of an ordered list of items.
pub struct GildedRose {
    pub items: Vec<Item>,
}

impl View for GildedRose {
    type V = Seq<ItemView>;

    open spec fn view(&self) -> Seq<ItemView> {
        Seq::new(self.items@.len(), |i: int| self.items@[i]@)
    }
}

impl GildedRose {
    /// A shop that holds `items`, in their order.
    pub fn new(items: Vec<Item>) -> (shop: GildedRose)
        ensures
            shop.items == items,
    {
        GildedRose { items }
    }

    /// Whether a day can pass for every item.
    pub open spec fn can_advance(&self) -> bool {
        forall|i: int| 0 <= i < self.items@.len() ==> (#[trigger] self.items@[i]).can_advance()
    }

    /// Whether a day can pass for every item, found out at run time.
    pub fn is_ready(&self) -> (ready: bool)
        ensures
            ready == self.can_advance(),
    {
        let mut i: usize = 0;
        while i < self.items.len()
            invariant
                i <= self.items@.len(),
                forall|k: int| 0 <= k < i ==> (#[trigger] self.items@[k]).can_advance(),
            decreases self.items@.len() - i,
        {
            if self.items[i].sell_in == i32::MIN {
                match self.items[i].category() {
                    Category::Legendary => {},
                    _ => {
                        assert(!self.items@[i as int].can_advance());
                        return false;
                    },
                }
            }
            i += 1;
        }
        true
    }

    /// Lets one day pass for every item, in place and in order: a legendary
    /// item stays as it is; every other item gets the next quality of its
    /// category, within the allowed range, and has one day less left. No name
    /// changes, and no item is added, removed or moved.
    pub fn update_quality(&mut self)
        requires
            old(self).can_advance(),
        ensures
            final(self)@ == advance_all(old(self)@),
            final(self).items@.len() == old(self).items@.len(),
            forall|i: int|
                0 <= i < final(self).items@.len() ==> (#[trigger] final(self).items@[i])@
                    == old(self).items@[i]@.next_day(),
            forall|i: int|
                0 <= i < final(self).items@.len() ==> (#[trigger] final(self).items@[i]).name
                    == old(self).items@[i].name,
            forall|i: int|
                0 <= i < final(self).items@.len() && (#[trigger] final(self).items@[i])@.category()
                    != Category::Legendary ==> MINIMUM_ALLOWED_QUALITY
                    <= final(self).items@[i].quality <= MAXIMUM_ALLOWED_QUALITY,
            forall|i: int|
                0 <= i < final(self).items@.len() && (#[trigger] final(self).items@[i])@.category()
                    == Category::Legendary ==> final(self).items@[i]@ == old(self).items@[i]@,
    {
        let ghost before = self.items@;
        let count: usize = self.items.len();
        let mut i: usize = 0;
        while i < count
            invariant
                count == before.len(),
                self.items@.len() == count,
                i <= count,
                forall|k: int| 0 <= k < count ==> (#[trigger] before[k]).can_advance(),
                forall|k: int| 0 <= k < i ==> (#[trigger] self.items@[k]).name == before[k].name,
                forall|k: int| 0 <= k < i ==> (#[trigger] self.items@[k])@ == before[k]@.next_day(),
                forall|k: int| i <= k < count ==> (#[trigger] self.items@[k]) == before[k],
            decreases count - i,
        {
            let category = self.items[i].category();
            match category {
                Category::Legendary => {},
                _ => {
                    let quality: i32 = match category {
                        Category::AgedBrie => Self::quality_increasing_update_strategy(&self.items[i]),
                        Category::BackstagePasses => Self::backstage_passes_update_strategy(
                            &self.items[i],
                        ),
                        Category::Conjured => Self::faster_degrading_update_strategy(&self.items[i]),
                        _ => Self::default_update_strategy(&self.items[i]),
                    };
                    self.items[i].quality = quality;
                    self.items[i].sell_in -= 1;
                },
            }
            i += 1;
        }
        assert(self@ =~= advance_all(old(self)@));
    }

    /// The next quality of an item whose quality rises with age.
    pub fn quality_increasing_update_strategy(item: &Item) -> (quality: i32)
        ensures
            quality == next_quality(Category::AgedBrie, item.sell_in as int, item.quality as int),
    {
        let quality_adjustment: i32 = if item.sell_in <= 0 {
            2
        } else {
            1
        };
        Self::get_updated_quality_within_bounds(item, quality_adjustment)
    }

    /// The next quality of an item whose quality rises faster as its date
    /// approaches and is gone once the date has passed.
    pub fn backstage_passes_update_strategy(item: &Item) -> (quality: i32)
        ensures
            quality == next_quality(
                Category::BackstagePasses,
                item.sell_in as int,
                item.quality as int,
            ),
    {
        if item.sell_in <= 0 {
            return 0;
        }
        let quality_adjustment: i32 = if item.sell_in <= 5 {
            3
        } else if item.sell_in <= 10 {
            2
        } else {
            1
        };
        Self::get_updated_quality_within_bounds(item, quality_adjustment)
    }

    /// The next quality of an item that degrades twice as fast as a normal one.
    pub fn faster_degrading_update_strategy(item: &Item) -> (quality: i32)
        ensures
            quality == next_quality(Category::Conjured, item.sell_in as int, item.quality as int),
    {
        let quality_adjustment: i32 = if item.sell_in <= 0 {
            -4
        } else {
            -2
        };
        Self::get_updated_quality_within_bounds(item, quality_adjustment)
    }

    /// The next quality of a normal item.
    pub fn default_update_strategy(item: &Item) -> (quality: i32)
        ensures
            quality == next_quality(Category::Normal, item.sell_in as int, item.quality as int),
    {
        let quality_adjustment: i32 = if item.sell_in <= 0 {
            -2
        } else {
            -1
        };
        Self::get_updated_quality_within_bounds(item, quality_adjustment)
    }

    /// The item's quality changed by `adjust_by` and brought into the allowed
    /// range. The sum is taken exactly, whatever the two numbers are.
    pub fn get_updated_quality_within_bounds(item: &Item, adjust_by: i32) -> (quality: i32)
        ensures
            quality == clamp_quality(item.quality + adjust_by),
            MINIMUM_ALLOWED_QUALITY <= quality <= MAXIMUM_ALLOWED_QUALITY,
    {
        let new_quality: i64 = item.quality as i64 + adjust_by as i64;
        if new_quality > MAXIMUM_ALLOWED_QUALITY as i64 {
            MAXIMUM_ALLOWED_QUALITY
        } else if new_quality < MINIMUM_ALLOWED_QUALITY as i64 {
            MINIMUM_ALLOWED_QUALITY
        } else {
            new_quality as i32
        }
    }
}

} // verus!
