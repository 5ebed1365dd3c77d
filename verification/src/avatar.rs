//! Avatar screen logic: which owned skins can be equipped.
use vstd::prelude::*;
use crate::games::LahiGame;
use crate::catalog::{SkinCategory, ShopItem, Inventory, shop_catalog, catalog_spec};
use crate::shop::{filter_items, lemma_filter_items_contains};

verus! {

/// The owned catalog items of one category, in catalog order.
pub open spec fn owned_items_in_category(category: SkinCategory, inventory: &Inventory) -> Seq<ShopItem> {
    filter_items(catalog_spec(), |i: ShopItem| i.category == category && inventory@.contains(i.id))
}

/// The catalog items of `category` that the player owns; only these
/// appear on the Avatar screen.
pub fn owned_in_category(category: SkinCategory, inventory: &Inventory) -> (r: Vec<ShopItem>)
    ensures
        r@ == owned_items_in_category(category, inventory),
        forall|x: ShopItem|
            r@.contains(x) <==> (catalog_spec().contains(x) && x.category == category && inventory@.contains(x.id)),
{
    let catalog = shop_catalog();
    let ghost keep = |i: ShopItem| i.category == category && inventory@.contains(i.id);
    let mut r: Vec<ShopItem> = Vec::new();
    let mut i: usize = 0;
    while i < catalog.len()
        invariant
            catalog@ == catalog_spec(),
            i <= catalog@.len(),
            keep == (|i: ShopItem| i.category == category && inventory@.contains(i.id)),
            r@ == filter_items(catalog@.take(i as int), keep),
        decreases catalog@.len() - i,
    {
        let item = catalog[i];
        assert(catalog@.take(i + 1).drop_last() =~= catalog@.take(i as int));
        assert(catalog@.take(i + 1).last() == item);
        if item.category == category && inventory.contains(item.id) {
            r.push(item);
        }
        i = i + 1;
    }
    assert(catalog@.take(catalog@.len() as int) =~= catalog@);
    assert forall|x: ShopItem|
        r@.contains(x) <==> (catalog_spec().contains(x) && x.category == category && inventory@.contains(x.id)) by {
        lemma_filter_items_contains(catalog@, keep, x);
    }
    r
}

/// The owned character skins.
pub fn owned_character_skins(inventory: &Inventory) -> (r: Vec<ShopItem>)
    ensures
        r@ == owned_items_in_category(SkinCategory::Character, inventory),
        forall|x: ShopItem|
            r@.contains(x) <==> (catalog_spec().contains(x) && x.category == SkinCategory::Character && inventory@.contains(x.id)),
{
    owned_in_category(SkinCategory::Character, inventory)
}

/// The owned object skins of one game.
pub fn owned_object_skins(game: LahiGame, inventory: &Inventory) -> (r: Vec<ShopItem>)
    ensures
        r@ == owned_items_in_category(SkinCategory::GameObject(game), inventory),
        forall|x: ShopItem|
            r@.contains(x) <==> (catalog_spec().contains(x) && x.category == SkinCategory::GameObject(game) && inventory@.contains(x.id)),
{
    owned_in_category(SkinCategory::GameObject(game), inventory)
}

/// The Avatar screen lists every owned skin of a category and nothing
/// else: an item is listed exactly when it is in the catalog, has that
/// category and is owned.
pub proof fn lemma_owned_listing_exact(category: SkinCategory, inventory: &Inventory, x: ShopItem)
    ensures
        owned_items_in_category(category, inventory).contains(x) <==> (catalog_spec().contains(x)
            && x.category == category && inventory@.contains(x.id)),
{
    let keep = |i: ShopItem| i.category == category && inventory@.contains(i.id);
    assert(owned_items_in_category(category, inventory) == filter_items(catalog_spec(), keep));
    lemma_filter_items_contains(catalog_spec(), keep, x);
}

} // verus!
