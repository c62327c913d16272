//! A stock item and its mathematical model.

use vstd::prelude::*;

verus! {

/// One entry of the stock list.
pub struct Item {
    /// The label of the item; it decides the category.
    pub name: String,
    /// Days left to sell the item; negative once the sell date has passed.
    pub sell_in: i32,
    /// The quality score of the item.
    pub quality: i32,
}

/// What an item is to the rules: its name as a sequence of characters and its
/// two numbers as unbounded integers.
pub struct ItemView {
    pub name: Seq<char>,
    pub sell_in: int,
    pub quality: int,
}

impl View for Item {
    type V = ItemView;

    open spec fn view(&self) -> ItemView {
        ItemView { name: self.name@, sell_in: self.sell_in as int, quality: self.quality as int }
    }
}

impl Item {
    /// A new item with the given name, days left to sell and quality.
    pub fn new(name: &str, sell_in: i32, quality: i32) -> (item: Item)
        ensures
            item@ == (ItemView { name: name@, sell_in: sell_in as int, quality: quality as int }),
    {
        Item { name: name.to_owned(), sell_in, quality }
    }
}

} // verus!
