//! A shop inventory whose items gain or lose quality once per simulated day,
//! each according to the rules of its category.

pub mod category;
pub mod inventory;
pub mod item;
pub mod laws;
pub mod rules;
pub mod text;

pub use category::{
    Category, AGED_BRIE_ITEM, BACKSTAGE_PASSES_ITEM, COMMON_ITEM, CONJURED_ITEM, LEGENDARY_ITEM,
};
pub use inventory::GildedRose;
pub use item::{Item, ItemView};
pub use rules::{MAXIMUM_ALLOWED_QUALITY, MINIMUM_ALLOWED_QUALITY};
