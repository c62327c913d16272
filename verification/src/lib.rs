//! Nightly stock keeping for a shop: every item carries a number of days left
//! to sell it and a quality score, and once per day both are adjusted by the
//! rules of the item's category.

pub mod category;
pub mod inventory;
pub mod item;
pub mod laws;
pub mod render;
pub mod rules;

pub use category::{classify, same_text, Category};
pub use inventory::GildedRose;
pub use item::{Item, ItemView};
pub use rules::{clamp_quality_delta, update_item_quality};
