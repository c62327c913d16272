//! The daily rules: how one day changes a single item.

use vstd::prelude::*;
use crate::category::{classify, category_of, Category};
use crate::item::{Item, ItemView};

verus! {

/// The highest quality the rules ever raise an item to.
pub const QUALITY_MAX: i32 = 50;

/// The lowest quality the rules ever lower an item to.
pub const QUALITY_MIN: i32 = 0;

/// `quality` brought into the range from `QUALITY_MIN` to `QUALITY_MAX`.
pub open spec fn bounded(quality: int) -> int {
    if quality < QUALITY_MIN {
        QUALITY_MIN as int
    } else if quality > QUALITY_MAX {
        QUALITY_MAX as int
    } else {
        quality
    }
}

/// A quality is saturated when it sits on a bound or beyond it. The rules
/// leave a saturated quality where it is: they neither push it further out
/// nor pull it back in.
pub open spec fn saturated(quality: int) -> bool {
    quality <= QUALITY_MIN || quality >= QUALITY_MAX
}

/// The part of an intended change `delta` that the bounds admit for an item
/// of quality `current`: nothing when `current` is saturated, and otherwise
/// as much of `delta` as keeps the quality within the bounds.
pub open spec fn clamped_delta(current: int, delta: int) -> int {
    if saturated(current) {
        0
    } else {
        bounded(current + delta) - current
    }
}

/// The change of quality that a category intends for one day, before the
/// bounds are applied, for an item that has `sell_in` days left and is of
/// quality `quality` as the day begins.
pub open spec fn intended_delta(category: Category, sell_in: int, quality: int) -> int {
    match category {
        Category::Sulfuras => 0,
        Category::AgedBrie => 1,
        Category::BackstagePasses => {
            if sell_in <= 0 {
                -quality
            } else if sell_in <= 5 {
                3
            } else if sell_in <= 10 {
                2
            } else {
                1
            }
        },
        Category::Normal => {
            if sell_in > 0 {
                -1
            } else {
                -2
            }
        },
    }
}

/// Backstage passes are worth nothing once the event is over. This is an
/// assignment, not a bounded change: it applies to a saturated quality too.
pub open spec fn collapses(category: Category, sell_in: int) -> bool {
    category == Category::BackstagePasses && sell_in <= 0
}

/// The quality of an item after one day.
pub open spec fn next_quality(category: Category, sell_in: int, quality: int) -> int {
    if collapses(category, sell_in) {
        0
    } else {
        quality + clamped_delta(quality, intended_delta(category, sell_in, quality))
    }
}

/// The days left to sell an item after one day: one fewer, however far past
/// the sell date the item is, except for legendary items.
pub open spec fn next_sell_in(category: Category, sell_in: int) -> int {
    if category == Category::Sulfuras {
        sell_in
    } else {
        sell_in - 1
    }
}

/// An item after one day.
pub open spec fn next_day(item: ItemView) -> ItemView {
    let category = category_of(item.name);
    ItemView {
        name: item.name,
        sell_in: next_sell_in(category, item.sell_in),
        quality: next_quality(category, item.sell_in, item.quality),
    }
}

/// An item after `days` days.
pub open spec fn after_days(item: ItemView, days: nat) -> ItemView
    decreases days,
{
    if days == 0 {
        item
    } else {
        next_day(after_days(item, (days - 1) as nat))
    }
}

/// Whether the days left to sell an item can be counted down once more in a
/// 32-bit integer. Legendary items are never counted down.
pub open spec fn can_age(item: ItemView) -> bool {
    category_of(item.name) != Category::Sulfuras ==> item.sell_in > i32::MIN
}

/// Cuts an intended change of quality down to what the bounds admit.
pub fn clamp_quality_delta(current: i32, delta: i32) -> (clamped: i32)
    ensures
        clamped == clamped_delta(current as int, delta as int),
        !saturated(current as int) ==> QUALITY_MIN <= current + clamped <= QUALITY_MAX,
{
    if current >= QUALITY_MAX || current <= QUALITY_MIN {
        0
    } else if delta > QUALITY_MAX - current {
        QUALITY_MAX - current
    } else if delta < QUALITY_MIN - current {
        QUALITY_MIN - current
    } else {
        delta
    }
}

/// The change of quality that `category` intends for an item with `sell_in`
/// days left, where that change does not depend on the item's quality.
fn aging_delta(category: Category, sell_in: i32) -> (delta: i32)
    requires
        !collapses(category, sell_in as int),
    ensures
        forall|quality: int| delta == #[trigger] intended_delta(category, sell_in as int, quality),
        -2 <= delta <= 3,
{
    match category {
        Category::Sulfuras => 0,
        Category::AgedBrie => 1,
        Category::BackstagePasses => {
            if sell_in <= 5 {
                3
            } else if sell_in <= 10 {
                2
            } else {
                1
            }
        },
        Category::Normal => {
            if sell_in > 0 {
                -1
            } else {
                -2
            }
        },
    }
}

/// Advances one item by one day: the item becomes what `next_day` says, and
/// its name is left alone. A legendary item is not touched at all. The one
/// demand is room to count down: an item that is not legendary must not
/// already stand at the lowest number of days a 32-bit integer can hold.
pub fn update_item_quality(item: &mut Item)
    requires
        can_age(old(item)@),
    ensures
        final(item)@ == next_day(old(item)@),
        final(item).name == old(item).name,
        category_of(old(item).name@) == Category::Sulfuras ==> final(item)@ == old(item)@,
        QUALITY_MIN <= old(item).quality <= QUALITY_MAX ==> QUALITY_MIN <= final(item).quality
            <= QUALITY_MAX,
{
    let category = classify(item.name.as_str());
    if category == Category::Sulfuras {
        return;
    }
    if category == Category::BackstagePasses && item.sell_in <= 0 {
        item.quality = 0;
    } else {
        let delta: i32 = aging_delta(category, item.sell_in);
        let clamped: i32 = clamp_quality_delta(item.quality, delta);
        item.quality = item.quality + clamped;
    }
    item.sell_in = item.sell_in - 1;
}

} // verus!
