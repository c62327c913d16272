//! The shop's stock list and its nightly update.

use vstd::prelude::*;
use crate::item::{Item, ItemView};
use crate::rules::{can_age, next_day, update_item_quality};

verus! {

/// The shop: an ordered list of items.
pub struct GildedRose {
    /// The stock, in the order in which it was handed over.
    pub items: Vec<Item>,
}

/// A stock list after one day: every item advanced by one day, each on its
/// own and in its place.
pub open spec fn advance(stock: Seq<ItemView>) -> Seq<ItemView> {
    Seq::new(stock.len(), |i: int| next_day(stock[i]))
}

/// A stock list after `days` days.
pub open spec fn stock_after_days(stock: Seq<ItemView>, days: nat) -> Seq<ItemView>
    decreases days,
{
    if days == 0 {
        stock
    } else {
        advance(stock_after_days(stock, (days - 1) as nat))
    }
}

/// Whether every item of a stock list can be counted down once more.
pub open spec fn all_can_age(stock: Seq<ItemView>) -> bool {
    forall|i: int| 0 <= i < stock.len() ==> can_age(#[trigger] stock[i])
}

impl View for GildedRose {
    type V = Seq<ItemView>;

    open spec fn view(&self) -> Seq<ItemView> {
        Seq::new(self.items@.len(), |i: int| self.items@[i]@)
    }
}

impl GildedRose {
    /// A shop that holds `items`.
    pub fn new(items: Vec<Item>) -> (shop: GildedRose)
        ensures
            shop.items == items,
            shop@ == Seq::new(items@.len(), |i: int| items@[i]@),
    {
        GildedRose { items }
    }

    /// Advances every item by one day, each on its own. No item is added,
    /// removed or moved. Every item must have room to count down.
    pub fn update_quality(&mut self)
        requires
            all_can_age(old(self)@),
        ensures
            final(self).items.len() == old(self).items.len(),
            final(self)@ == advance(old(self)@),
            forall|i: int|
                0 <= i < old(self).items.len() ==> (#[trigger] final(self).items@[i])@ == next_day(
                    old(self).items@[i]@,
                ),
    {
        let count: usize = self.items.len();
        let mut done: usize = 0;
        while done < count
            invariant
                done <= count,
                self.items.len() == count,
                old(self).items.len() == count,
                forall|i: int|
                    0 <= i < done ==> (#[trigger] self.items@[i])@ == next_day(
                        old(self).items@[i]@,
                    ),
                forall|i: int|
                    done <= i < count ==> #[trigger] self.items@[i] == old(self).items@[i],
                all_can_age(old(self)@),
            decreases count - done,
        {
            assert(can_age(old(self)@[done as int]));
            update_item_quality(&mut self.items[done]);
            done = done + 1;
        }
        assert(self@ =~= advance(old(self)@));
    }
}

} // verus!
