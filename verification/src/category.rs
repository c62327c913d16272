//! The four categories of stock and the mapping from an item's name to its
//! category.

use vstd::prelude::*;
use vstd::utf8::{encode_utf8, encode_utf8_decode_utf8};

verus! {

/// The behaviour an item follows, decided by its name alone.
#[derive(Clone, Copy, Debug, PartialEq, Eq, Structural)]
pub enum Category {
    /// Loses quality over time, twice as fast once the sell date has passed.
    Normal,
    /// Gains quality over time.
    AgedBrie,
    /// Gains quality faster as the event nears and is worthless after it.
    BackstagePasses,
    /// Legendary: never sold, never altered.
    Sulfuras,
}

/// The name that marks an item as aged brie.
pub const AGED_BRIE: &'static str = "Aged Brie";

/// The name that marks an item as backstage passes.
pub const BACKSTAGE_PASSES: &'static str = "Backstage passes to a TAFKAL80ETC concert";

/// The name that marks an item as legendary.
pub const SULFURAS: &'static str = "Sulfuras, Hand of Ragnaros";

/// Whether `name` is the label `label`, character for character. The lengths
/// are compared first: they alone tell most names apart.
pub open spec fn is_label(name: Seq<char>, label: Seq<char>) -> bool {
    name.len() == label.len() && name == label
}

/// The category of an item called `name`: an exact match with one of the three
/// special names, and `Normal` for every other name.
pub open spec fn category_of(name: Seq<char>) -> Category {
    if is_label(name, SULFURAS@) {
        Category::Sulfuras
    } else if is_label(name, AGED_BRIE@) {
        Category::AgedBrie
    } else if is_label(name, BACKSTAGE_PASSES@) {
        Category::BackstagePasses
    } else {
        Category::Normal
    }
}

/// Each of the three special names stands for its own category: no two of
/// them are the same text, so none hides another.
pub proof fn lemma_special_names_classify()
    ensures
        category_of(SULFURAS@) == Category::Sulfuras,
        category_of(AGED_BRIE@) == Category::AgedBrie,
        category_of(BACKSTAGE_PASSES@) == Category::BackstagePasses,
{
    reveal_strlit("Aged Brie");
    reveal_strlit("Backstage passes to a TAFKAL80ETC concert");
    reveal_strlit("Sulfuras, Hand of Ragnaros");
}

/// Every name that is none of the three special names is a normal item.
pub proof fn lemma_other_names_are_normal(name: Seq<char>)
    requires
        name != SULFURAS@,
        name != AGED_BRIE@,
        name != BACKSTAGE_PASSES@,
    ensures
        category_of(name) == Category::Normal,
{
}

/// Two sequences of characters with the same UTF-8 encoding are the same
/// sequence.
pub proof fn lemma_encoding_tells_texts_apart(a: Seq<char>, b: Seq<char>)
    requires
        encode_utf8(a) == encode_utf8(b),
    ensures
        a == b,
{
    encode_utf8_decode_utf8(a);
    encode_utf8_decode_utf8(b);
}

/// Whether two string slices hold the same text, decided byte by byte.
pub fn same_text(a: &str, b: &str) -> (same: bool)
    ensures
        same == (a@ == b@),
{
    let left = a.as_bytes();
    let right = b.as_bytes();
    if left.len() != right.len() {
        return false;
    }
    let mut at: usize = 0;
    while at < left.len()
        invariant
            left@ == encode_utf8(a@),
            right@ == encode_utf8(b@),
            left@.len() == right@.len(),
            at <= left@.len(),
            forall|i: int| 0 <= i < at ==> left@[i] == right@[i],
        decreases left@.len() - at,
    {
        if left[at] != right[at] {
            return false;
        }
        at = at + 1;
    }
    proof {
        assert(left@ =~= right@);
        lemma_encoding_tells_texts_apart(a@, b@);
    }
    true
}

/// Classifies an item by its name.
pub fn classify(name: &str) -> (category: Category)
    ensures
        category == category_of(name@),
{
    if same_text(name, SULFURAS) {
        Category::Sulfuras
    } else if same_text(name, AGED_BRIE) {
        Category::AgedBrie
    } else if same_text(name, BACKSTAGE_PASSES) {
        Category::BackstagePasses
    } else {
        Category::Normal
    }
}

} // verus!
