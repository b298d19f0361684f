//! An item of the inventory and its mathematical model.

use vstd::prelude::*;
use vstd::string::*;
use crate::category::{category_of, Category};
use crate::rules::{next_quality, next_sell_in};
use crate::text::{append_decimal, decimal_of};

verus! {

/// Something the shop sells.
pub struct Item {
    /// What the item is called; the name alone selects its category.
    pub name: String,
    /// Days left to sell the item; negative once the date has passed.
    pub sell_in: i32,
    /// How valuable the item is.
    pub quality: i32,
}

/// An item as the rules see it: its name as a sequence of characters, its
/// numbers as unbounded integers.
pub struct ItemView {
    pub name: Seq<char>,
    pub sell_in: int,
    pub quality: int,
}

impl ItemView {
    /// The category that the name selects.
    pub open spec fn category(self) -> Category {
        category_of(self.name)
    }

    /// The item one day later.
    pub open spec fn next_day(self) -> ItemView {
        ItemView {
            name: self.name,
            sell_in: next_sell_in(self.category(), self.sell_in),
            quality: next_quality(self.category(), self.sell_in, self.quality),
        }
    }

    /// The item `days` days later.
    pub open spec fn after_days(self, days: nat) -> ItemView
        decreases days,
    {
        if days == 0 {
            self
        } else {
            self.next_day().after_days((days - 1) as nat)
        }
    }

    /// The item written out: its name, its days left and its quality, with a
    /// comma and a space between them.
    pub open spec fn text(self) -> Seq<char> {
        self.name + seq![',', ' '] + decimal_of(self.sell_in) + seq![',', ' '] + decimal_of(
            self.quality,
        )
    }
}

impl View for Item {
    type V = ItemView;

    open spec fn view(&self) -> ItemView {
        ItemView { name: self.name@, sell_in: self.sell_in as int, quality: self.quality as int }
    }
}

impl Item {
    /// An item called `name` with `sell_in` days left and the given `quality`.
    /// No value is rejected or adjusted.
    pub fn new(name: &str, sell_in: i32, quality: i32) -> (item: Item)
        ensures
            item@ == (ItemView { name: name@, sell_in: sell_in as int, quality: quality as int }),
            item.sell_in == sell_in,
            item.quality == quality,
    {
        Item { name: String::from_str(name), sell_in, quality }
    }

    /// The category that the item's name selects.
    pub fn category(&self) -> (category: Category)
        ensures
            category == self@.category(),
    {
        Category::of_name(self.name.as_str())
    }

    /// The item written out for a reader, as `name, sell_in, quality`.
    pub fn to_string(&self) -> (text: String)
        ensures
            text@ == self@.text(),
    {
        proof {
            reveal_strlit(", ");
        }
        let mut text = self.name.clone();
        text.append(", ");
        append_decimal(&mut text, self.sell_in);
        text.append(", ");
        append_decimal(&mut text, self.quality);
        assert(text@ =~= self@.text());
        text
    }

    /// Whether a day can pass for the item: its days left can still be counted
    /// down, unless the item never changes.
    pub open spec fn can_advance(&self) -> bool {
        self@.category() != Category::Legendary ==> self.sell_in > i32::MIN
    }
}

} // verus!
