//! The daily rules, stated over mathematical integers.

use vstd::prelude::*;
use crate::category::Category;

verus! {

/// The highest quality an update can leave.
pub const MAXIMUM_ALLOWED_QUALITY: i32 = 50;

/// The lowest quality an update can leave.
pub const MINIMUM_ALLOWED_QUALITY: i32 = 0;

/// `quality` brought into the allowed range.
pub open spec fn clamp_quality(quality: int) -> int {
    if quality < MINIMUM_ALLOWED_QUALITY {
        MINIMUM_ALLOWED_QUALITY as int
    } else if quality > MAXIMUM_ALLOWED_QUALITY {
        MAXIMUM_ALLOWED_QUALITY as int
    } else {
        quality
    }
}

/// By how much a day changes the quality of an item of `category` that has
/// `sell_in` days left, before the result is brought into the allowed range.
/// For backstage passes this holds only while the event lies ahead.
pub open spec fn quality_adjustment(category: Category, sell_in: int) -> int {
    match category {
        Category::Normal => if sell_in > 0 { -1 } else { -2 },
        Category::AgedBrie => if sell_in > 0 { 1 } else { 2 },
        Category::Conjured => if sell_in > 0 { -2 } else { -4 },
        Category::BackstagePasses => if sell_in > 10 { 1 } else if sell_in > 5 { 2 } else { 3 },
        Category::Legendary => 0,
    }
}

/// The quality that an item of `category` has after one day.
pub open spec fn next_quality(category: Category, sell_in: int, quality: int) -> int {
    match category {
        Category::Legendary => quality,
        Category::BackstagePasses if sell_in <= 0 => 0,
        _ => clamp_quality(quality + quality_adjustment(category, sell_in)),
    }
}

/// The days that an item of `category` has left after one day.
pub open spec fn next_sell_in(category: Category, sell_in: int) -> int {
    match category {
        Category::Legendary => sell_in,
        _ => sell_in - 1,
    }
}

} // verus!
