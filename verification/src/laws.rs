//! What holds of the rules over any number of days.

use vstd::prelude::*;
use crate::category::{category_of, Category};
use crate::inventory::{advance, stock_after_days};
use crate::item::ItemView;
use crate::rules::{after_days, collapses, next_day, saturated, QUALITY_MAX, QUALITY_MIN};

verus! {

/// An item keeps its name, and with it its category, however many days pass.
pub proof fn lemma_name_is_kept(item: ItemView, days: nat)
    ensures
        after_days(item, days).name == item.name,
        category_of(after_days(item, days).name) == category_of(item.name),
    decreases days,
{
    if days > 0 {
        lemma_name_is_kept(item, (days - 1) as nat);
    }
}

/// The days left to sell an item that is not legendary go down by one with
/// every day, without end.
pub proof fn lemma_sell_in_counts_down(item: ItemView, days: nat)
    requires
        category_of(item.name) != Category::Sulfuras,
    ensures
        after_days(item, days).sell_in == item.sell_in - days,
    decreases days,
{
    if days > 0 {
        lemma_name_is_kept(item, (days - 1) as nat);
        lemma_sell_in_counts_down(item, (days - 1) as nat);
    }
}

/// A quality that starts within the bounds is within the bounds after any
/// number of days.
pub proof fn lemma_quality_stays_in_range(item: ItemView, days: nat)
    requires
        QUALITY_MIN <= item.quality <= QUALITY_MAX,
    ensures
        QUALITY_MIN <= after_days(item, days).quality <= QUALITY_MAX,
    decreases days,
{
    if days > 0 {
        lemma_quality_stays_in_range(item, (days - 1) as nat);
    }
}

/// A legendary item is the same after any number of days: its name, its days
/// left to sell and its quality, whatever that quality is.
pub proof fn lemma_legendary_is_unchanged(item: ItemView, days: nat)
    requires
        category_of(item.name) == Category::Sulfuras,
    ensures
        after_days(item, days) == item,
    decreases days,
{
    if days > 0 {
        lemma_legendary_is_unchanged(item, (days - 1) as nat);
    }
}

/// A quality that sits on a bound, or beyond it, does not move for as long as
/// the item does not collapse: for ever in an item that is no backstage pass,
/// and in a backstage pass on each day that begins before the event is over.
pub proof fn lemma_saturated_quality_is_kept(item: ItemView, days: nat)
    requires
        saturated(item.quality),
        category_of(item.name) == Category::BackstagePasses ==> days <= item.sell_in,
    ensures
        after_days(item, days).quality == item.quality,
    decreases days,
{
    if days > 0 {
        let before = (days - 1) as nat;
        lemma_saturated_quality_is_kept(item, before);
        lemma_name_is_kept(item, before);
        if category_of(item.name) == Category::BackstagePasses {
            lemma_sell_in_counts_down(item, before);
            assert(!collapses(category_of(item.name), after_days(item, before).sell_in));
        }
    }
}

/// A quality of exactly zero stays zero for ever, in every category: falling
/// items cannot fall further, rising items do not leave the bound, and a
/// collapse sets the quality to zero again.
pub proof fn lemma_zero_quality_is_kept(item: ItemView, days: nat)
    requires
        item.quality == QUALITY_MIN,
    ensures
        after_days(item, days).quality == QUALITY_MIN,
    decreases days,
{
    if days > 0 {
        lemma_zero_quality_is_kept(item, (days - 1) as nat);
    }
}

/// A backstage pass is of quality zero from the first day that begins with
/// the event over, whatever its quality was before.
pub proof fn lemma_backstage_pass_collapses(item: ItemView, days: nat)
    requires
        category_of(item.name) == Category::BackstagePasses,
        days > item.sell_in,
        days > 0,
    ensures
        after_days(item, days).quality == 0,
{
    let before = (days - 1) as nat;
    lemma_name_is_kept(item, before);
    lemma_sell_in_counts_down(item, before);
    assert(collapses(category_of(item.name), after_days(item, before).sell_in));
}

/// No number of days adds an item to the stock or removes one.
pub proof fn lemma_stock_size_is_kept(stock: Seq<ItemView>, days: nat)
    ensures
        advance(stock).len() == stock.len(),
        stock_after_days(stock, days).len() == stock.len(),
    decreases days,
{
    if days > 0 {
        lemma_stock_size_is_kept(stock, (days - 1) as nat);
    }
}

/// Items age independently: what stands at a place of the stock after some
/// days is the item that stood there at first, aged by that many days on its
/// own.
pub proof fn lemma_stock_ages_itemwise(stock: Seq<ItemView>, days: nat, place: int)
    requires
        0 <= place < stock.len(),
    ensures
        stock_after_days(stock, days).len() == stock.len(),
        stock_after_days(stock, days)[place] == after_days(stock[place], days),
    decreases days,
{
    lemma_stock_size_is_kept(stock, days);
    if days > 0 {
        lemma_stock_size_is_kept(stock, (days - 1) as nat);
        lemma_stock_ages_itemwise(stock, (days - 1) as nat, place);
    }
}

} // verus!
