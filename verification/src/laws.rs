//! What holds of the rules on every item and after any number of days.

use vstd::prelude::*;
use crate::category::Category;
use crate::inventory::{advance_all, advance_all_by};
use crate::item::ItemView;
use crate::rules::{clamp_quality, MAXIMUM_ALLOWED_QUALITY, MINIMUM_ALLOWED_QUALITY};

verus! {

/// A day leaves the quality of every item that is not legendary within the
/// allowed range, whatever it was before.
pub proof fn lemma_quality_in_range_after_a_day(item: ItemView)
    requires
        item.category() != Category::Legendary,
    ensures
        MINIMUM_ALLOWED_QUALITY <= item.next_day().quality <= MAXIMUM_ALLOWED_QUALITY,
{
}

/// A day changes neither the name nor the category of an item.
pub proof fn lemma_days_keep_name(item: ItemView, days: nat)
    ensures
        item.after_days(days).name == item.name,
        item.after_days(days).category() == item.category(),
    decreases days,
{
    if days > 0 {
        lemma_days_keep_name(item.next_day(), (days - 1) as nat);
    }
}

/// One more day after `days` days is `days + 1` days.
pub proof fn lemma_one_more_day(item: ItemView, days: nat)
    ensures
        item.after_days(days + 1) == item.after_days(days).next_day(),
    decreases days,
{
    assert(item.after_days(days + 1) == item.next_day().after_days(days));
    if days > 0 {
        lemma_one_more_day(item.next_day(), (days - 1) as nat);
    } else {
        assert(item.next_day().after_days(0) == item.next_day());
    }
}

/// After one day or more the quality of every item that is not legendary is
/// within the allowed range.
pub proof fn lemma_quality_in_range(item: ItemView, days: nat)
    requires
        item.category() != Category::Legendary,
        days >= 1,
    ensures
        MINIMUM_ALLOWED_QUALITY <= item.after_days(days).quality <= MAXIMUM_ALLOWED_QUALITY,
{
    let earlier = (days - 1) as nat;
    lemma_one_more_day(item, earlier);
    lemma_days_keep_name(item, earlier);
    lemma_quality_in_range_after_a_day(item.after_days(earlier));
}

/// A legendary item is the same after any number of days.
pub proof fn lemma_legendary_never_changes(item: ItemView, days: nat)
    requires
        item.category() == Category::Legendary,
    ensures
        item.after_days(days) == item,
    decreases days,
{
    if days > 0 {
        assert(item.next_day() == item);
        lemma_legendary_never_changes(item, (days - 1) as nat);
    }
}

/// Every day takes one from the days left of an item that is not legendary.
pub proof fn lemma_sell_in_counts_down(item: ItemView, days: nat)
    requires
        item.category() != Category::Legendary,
    ensures
        item.after_days(days).sell_in == item.sell_in - days,
    decreases days,
{
    if days > 0 {
        lemma_sell_in_counts_down(item.next_day(), (days - 1) as nat);
    }
}

/// A day never leaves an item that is not legendary as it was: updating is
/// not idempotent.
pub proof fn lemma_a_day_changes_the_item(item: ItemView, days: nat)
    requires
        item.category() != Category::Legendary,
        days >= 1,
    ensures
        item.after_days(days) != item,
{
    lemma_sell_in_counts_down(item, days);
}

/// Once its date has passed, a backstage pass has quality 0 after every
/// further day.
pub proof fn lemma_backstage_pass_worthless_after_date(item: ItemView, days: nat)
    requires
        item.category() == Category::BackstagePasses,
        item.sell_in <= 0,
        days >= 1,
    ensures
        item.after_days(days).quality == 0,
{
    let earlier = (days - 1) as nat;
    lemma_one_more_day(item, earlier);
    lemma_days_keep_name(item, earlier);
    lemma_sell_in_counts_down(item, earlier);
}

/// Once its date has passed, a day takes 2 from the quality of a normal item
/// and 4 from that of a conjured one, and adds 2 to that of an aged brie,
/// within the allowed range.
pub proof fn lemma_double_rate_after_date(item: ItemView)
    requires
        item.sell_in <= 0,
    ensures
        item.category() == Category::Normal ==> item.next_day().quality == clamp_quality(
            item.quality - 2,
        ),
        item.category() == Category::Conjured ==> item.next_day().quality == clamp_quality(
            item.quality - 4,
        ),
        item.category() == Category::AgedBrie ==> item.next_day().quality == clamp_quality(
            item.quality + 2,
        ),
{
}

/// After any number of days a shop holds as many items as before, and each
/// is what its own days made of it.
pub proof fn lemma_days_act_item_by_item(items: Seq<ItemView>, days: nat)
    ensures
        advance_all_by(items, days).len() == items.len(),
        forall|i: int|
            0 <= i < items.len() ==> (#[trigger] advance_all_by(items, days)[i])
                == items[i].after_days(days),
    decreases days,
{
    if days > 0 {
        lemma_days_act_item_by_item(advance_all(items), (days - 1) as nat);
    }
}

/// The same items and the same number of days give the same items: updating
/// is deterministic.
pub proof fn lemma_same_start_same_end(first: Seq<ItemView>, second: Seq<ItemView>, days: nat)
    requires
        first == second,
    ensures
        advance_all_by(first, days) == advance_all_by(second, days),
{
}

/// A day changes every shop that holds an item that is not legendary.
pub proof fn lemma_a_day_changes_the_shop(items: Seq<ItemView>, i: int)
    requires
        0 <= i < items.len(),
        items[i].category() != Category::Legendary,
    ensures
        advance_all(items) != items,
{
    assert(advance_all(items)[i].sell_in == items[i].sell_in - 1);
}

/// A shop of legendary items is the same after any number of days.
pub proof fn lemma_legendary_shop_never_changes(items: Seq<ItemView>, days: nat)
    requires
        forall|i: int| 0 <= i < items.len() ==> (#[trigger] items[i]).category()
            == Category::Legendary,
    ensures
        advance_all_by(items, days) == items,
{
    lemma_days_act_item_by_item(items, days);
    assert forall|i: int| 0 <= i < items.len() implies (#[trigger] advance_all_by(items, days)[i])
        == items[i] by {
        lemma_legendary_never_changes(items[i], days);
    }
    assert(advance_all_by(items, days) =~= items);
}

} // verus!
