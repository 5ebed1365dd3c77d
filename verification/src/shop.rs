//! Shop logic: tabs, the cards shown for a category, and purchases.
use vstd::prelude::*;
use crate::games::{LahiGame, playable_games};
use crate::catalog::{
    SkinId, SkinCategory, ShopItem, Inventory, shop_catalog, catalog_spec, catalog_ids, free_ids,
    default_objects,
};
use crate::progression::Currency;

verus! {

/// Keeps the items of `items` that satisfy `keep`, in order.
pub open spec fn filter_items(items: Seq<ShopItem>, keep: spec_fn(ShopItem) -> bool) -> Seq<ShopItem>
    decreases items.len(),
{
    if items.len() == 0 {
        seq![]
    } else {
        let rest = filter_items(items.drop_last(), keep);
        if keep(items.last()) {
            rest.push(items.last())
        } else {
            rest
        }
    }
}

/// An item survives filtering exactly when it occurs in the filtered
/// sequence and satisfies the predicate: nothing is dropped that should
/// be kept, and nothing is kept that should be dropped.
pub proof fn lemma_filter_items_contains(items: Seq<ShopItem>, keep: spec_fn(ShopItem) -> bool, x: ShopItem)
    ensures
        filter_items(items, keep).contains(x) <==> (items.contains(x) && keep(x)),
    decreases items.len(),
{
    if items.len() > 0 {
        let init = items.drop_last();
        let last = items.last();
        lemma_filter_items_contains(init, keep, x);
        let rest = filter_items(init, keep);
        if items.contains(x) {
            let i = choose|i: int| 0 <= i < items.len() && items[i] == x;
            if i < items.len() - 1 {
                assert(init[i] == x);
            }
        }
        if init.contains(x) {
            let i = choose|i: int| 0 <= i < init.len() && init[i] == x;
            assert(items[i] == x);
        }
        if keep(last) {
            assert(rest.push(last)[rest.len() as int] == last);
            if rest.contains(x) {
                let i = choose|i: int| 0 <= i < rest.len() && rest[i] == x;
                assert(rest.push(last)[i] == x);
            }
            if rest.push(last).contains(x) {
                let i = choose|i: int| 0 <= i < rest.len() + 1 && rest.push(last)[i] == x;
                if i < rest.len() {
                    assert(rest[i] == x);
                }
            }
        }
        assert(items[items.len() - 1] == last);
    }
}

/// The catalog items of one category, in catalog order.
pub open spec fn items_in_category(category: SkinCategory) -> Seq<ShopItem> {
    filter_items(catalog_spec(), |i: ShopItem| i.category == category)
}

/// The category shown on a shop tab: tab 0 is character skins, tabs
/// 1 to 5 are the object skins of each playable game.
pub open spec fn spec_category_for_tab(idx: int) -> SkinCategory {
    if idx == 0 {
        SkinCategory::Character
    } else {
        SkinCategory::GameObject(playable_games()[idx - 1])
    }
}

pub fn category_for_tab(idx: usize) -> (c: SkinCategory)
    requires
        idx <= 5,
    ensures
        c == spec_category_for_tab(idx as int),
{
    if idx == 0 {
        SkinCategory::Character
    } else {
        SkinCategory::GameObject(LahiGame::all()[idx - 1])
    }
}

pub fn tab_label(idx: usize) -> (s: &'static str)
    requires
        idx <= 5,
    ensures
        s@ == (if idx == 0 {
            "Character"@
        } else {
            playable_games()[idx - 1].spec_display_name()
        }),
{
    if idx == 0 {
        "Character"
    } else {
        LahiGame::all()[idx - 1].display_name()
    }
}

/// One card of the shop grid: an item, whether it is owned, and whether
/// the player can afford it.
#[derive(Clone, Copy, Debug)]
pub struct ShopCard {
    pub item: ShopItem,
    pub owned: bool,
    pub affordable: bool,
}

/// The player can afford an item when they have at least its price.
pub fn is_affordable(currency: u32, price: u32) -> (b: bool)
    ensures
        b == (currency >= price),
{
    currency >= price
}

pub open spec fn card_for(item: ShopItem, owned: Set<SkinId>, currency: u32) -> ShopCard {
    ShopCard { item, owned: owned.contains(item.id), affordable: currency >= item.price }
}

/// One card per catalog item of `category`, owned and locked alike.
pub fn shop_cards(category: SkinCategory, inventory: &Inventory, currency: u32) -> (r: Vec<ShopCard>)
    ensures
        r@ == items_in_category(category).map_values(|i: ShopItem| card_for(i, inventory@, currency)),
        forall|k: int|
            #![trigger r@[k]]
            0 <= k < r@.len() ==> {
                &&& r@[k].owned == inventory@.contains(r@[k].item.id)
                &&& r@[k].affordable == (currency >= r@[k].item.price)
                &&& r@[k].item.category == category
                &&& catalog_spec().contains(r@[k].item)
            },
        forall|x: ShopItem|
            catalog_spec().contains(x) && x.category == category ==> exists|k: int|
                0 <= k < r@.len() && #[trigger] r@[k].item == x,
{
    let catalog = shop_catalog();
    let ghost keep = |i: ShopItem| i.category == category;
    let ghost card = |i: ShopItem| card_for(i, inventory@, currency);
    let mut r: Vec<ShopCard> = Vec::new();
    let mut i: usize = 0;
    while i < catalog.len()
        invariant
            catalog@ == catalog_spec(),
            i <= catalog@.len(),
            keep == (|i: ShopItem| i.category == category),
            card == (|i: ShopItem| card_for(i, inventory@, currency)),
            r@ == filter_items(catalog@.take(i as int), keep).map_values(card),
        decreases catalog@.len() - i,
    {
        let item = catalog[i];
        let ghost before = filter_items(catalog@.take(i as int), keep);
        assert(catalog@.take(i + 1).drop_last() =~= catalog@.take(i as int));
        assert(catalog@.take(i + 1).last() == item);
        if item.category == category {
            let owned = inventory.contains(item.id);
            let affordable = is_affordable(currency, item.price);
            r.push(ShopCard { item, owned, affordable });
            assert(before.push(item).map_values(card) =~= before.map_values(card).push(card(item)));
        }
        i = i + 1;
    }
    assert(catalog@.take(catalog@.len() as int) =~= catalog@);
    assert forall|k: int| #![trigger r@[k]] 0 <= k < r@.len() implies {
        &&& r@[k].owned == inventory@.contains(r@[k].item.id)
        &&& r@[k].affordable == (currency >= r@[k].item.price)
        &&& r@[k].item.category == category
        &&& catalog_spec().contains(r@[k].item)
    } by {
        let items = filter_items(catalog@, keep);
        assert(items.contains(items[k]));
        lemma_filter_items_contains(catalog@, keep, items[k]);
    }
    assert forall|x: ShopItem| catalog_spec().contains(x) && x.category == category implies exists|k: int|
        0 <= k < r@.len() && #[trigger] r@[k].item == x by {
        let items = filter_items(catalog@, keep);
        lemma_filter_items_contains(catalog@, keep, x);
        let k = choose|k: int| 0 <= k < items.len() && items[k] == x;
        assert(r@[k].item == x);
    }
    r
}

/// A purchase succeeds when the item is not yet owned and the player
/// has at least its price.
pub open spec fn can_buy(owned: Set<SkinId>, currency: u32, id: SkinId, price: u32) -> bool {
    !owned.contains(id) && currency >= price
}

/// Buys `id` for `price`: on success the price is paid and the item is
/// owned; otherwise nothing changes. Returns whether it was bought.
pub fn try_buy(currency: &mut Currency, inventory: &mut Inventory, id: SkinId, price: u32) -> (bought: bool)
    ensures
        bought == can_buy(old(inventory)@, old(currency).0, id, price),
        bought == (!old(inventory)@.contains(id) && old(currency).0 >= price),
        bought ==> final(currency).0 == old(currency).0 - price,
        bought ==> final(inventory)@ == old(inventory)@.insert(id),
        !bought ==> final(currency).0 == old(currency).0,
        !bought ==> final(inventory)@ == old(inventory)@,
{
    if !inventory.contains(id) && currency.0 >= price {
        currency.0 = currency.0 - price;
        inventory.insert(id);
        true
    } else {
        false
    }
}

/// Buys `id` at its catalog price: on success the price is paid and the
/// item is owned; otherwise nothing changes. Returns whether it was
/// bought.
pub fn buy(currency: &mut Currency, inventory: &mut Inventory, id: SkinId) -> (bought: bool)
    ensures
        bought == can_buy(old(inventory)@, old(currency).0, id, id.spec_item().price),
        bought == (!old(inventory)@.contains(id) && old(currency).0 >= id.spec_item().price),
        bought ==> final(currency).0 == old(currency).0 - id.spec_item().price,
        bought ==> final(inventory)@ == old(inventory)@.insert(id),
        !bought ==> final(currency).0 == old(currency).0,
        !bought ==> final(inventory)@ == old(inventory)@,
{
    let price = id.item().price;
    try_buy(currency, inventory, id, price)
}

/// The purchase rule treats every item alike: an owned item is always
/// refused, an unowned one is bought exactly when the balance covers
/// the price, and two unowned items at the same price are either both
/// bought or both refused, whichever items they are.
pub proof fn lemma_purchase_rule(owned: Set<SkinId>, currency: u32, id: SkinId, other: SkinId, price: u32)
    ensures
        owned.contains(id) ==> !can_buy(owned, currency, id, price),
        !owned.contains(id) ==> (can_buy(owned, currency, id, price) <==> currency >= price),
        !owned.contains(id) && !owned.contains(other) ==> can_buy(owned, currency, id, price) == can_buy(
            owned,
            currency,
            other,
            price,
        ),
{
}

/// Each card of a shop tab tells the truth about its item: it is marked
/// owned exactly when the inventory holds the item, affordable exactly
/// when the balance covers its price, and the item belongs to the tab's
/// category. The cards are exactly the catalog items of that category.
pub proof fn lemma_shop_card_flags(category: SkinCategory, owned: Set<SkinId>, currency: u32, k: int, x: ShopItem)
    ensures
        0 <= k < items_in_category(category).len() ==> {
            let c = items_in_category(category).map_values(|i: ShopItem| card_for(i, owned, currency))[k];
            &&& c.owned == owned.contains(c.item.id)
            &&& c.affordable == (currency >= c.item.price)
            &&& c.item.category == category
        },
        items_in_category(category).contains(x) <==> (catalog_spec().contains(x) && x.category == category),
{
    let keep = |i: ShopItem| i.category == category;
    assert(items_in_category(category) == filter_items(catalog_spec(), keep));
    lemma_filter_items_contains(catalog_spec(), keep, x);
    if 0 <= k < items_in_category(category).len() {
        let item = items_in_category(category)[k];
        assert(items_in_category(category).contains(item));
        lemma_filter_items_contains(catalog_spec(), keep, item);
    }
}

/// A purchased item cannot be bought again: once a purchase succeeds,
/// a second one of the same item is refused whatever its price.
pub proof fn lemma_second_purchase_refused(owned: Set<SkinId>, currency: u32, id: SkinId, price: u32, again: u32)
    requires
        can_buy(owned, currency, id, price),
    ensures
        !can_buy(owned.insert(id), (currency - price) as u32, id, again),
{
}

/// Every shop tab has a free default item, owned from the start, so
/// each category always has something equippable.
pub proof fn lemma_every_tab_has_free_default(idx: int)
    requires
        0 <= idx <= 5,
    ensures
        exists|i: int|
            0 <= i < catalog_spec().len() && #[trigger] catalog_spec()[i].category == spec_category_for_tab(idx)
                && catalog_spec()[i].price == 0 && free_ids(catalog_ids()).contains(catalog_spec()[i].id),
{
    let i: int = 2 * idx;
    assert(catalog_ids()[i] == catalog_spec()[i].id);
    assert(catalog_ids().contains(catalog_spec()[i].id));
    assert(catalog_spec()[i].category == spec_category_for_tab(idx));
}

/// Filtering a sequence in which exactly positions `a < b` are kept
/// gives the first `n` elements' share of those two.
proof fn lemma_filter_two(s: Seq<ShopItem>, keep: spec_fn(ShopItem) -> bool, a: int, b: int, n: int)
    requires
        0 <= a < b < s.len(),
        forall|i: int| 0 <= i < s.len() ==> (keep(#[trigger] s[i]) <==> (i == a || i == b)),
        0 <= n <= s.len(),
    ensures
        filter_items(s.take(n), keep) == (if n > b {
            seq![s[a], s[b]]
        } else if n > a {
            seq![s[a]]
        } else {
            Seq::<ShopItem>::empty()
        }),
    decreases n,
{
    if n == 0 {
        assert(filter_items(s.take(0), keep) =~= Seq::<ShopItem>::empty());
    } else {
        lemma_filter_two(s, keep, a, b, n - 1);
        assert(s.take(n).drop_last() =~= s.take(n - 1));
        assert(s.take(n).last() == s[n - 1]);
        if n > b {
            if n - 1 == b {
                assert(seq![s[a]].push(s[b]) =~= seq![s[a], s[b]]);
            }
        } else if n > a {
            if n - 1 == a {
                assert(Seq::<ShopItem>::empty().push(s[a]) =~= seq![s[a]]);
            }
        }
    }
}

/// Each shop tab lists exactly two items: its free default, then one
/// premium unlockable.
pub proof fn lemma_each_tab_has_one_free_and_one_premium(k: int)
    requires
        0 <= k <= 5,
    ensures
        items_in_category(spec_category_for_tab(k)).len() == 2,
        items_in_category(spec_category_for_tab(k))[0].price == 0,
        items_in_category(spec_category_for_tab(k))[1].price > 0,
{
    let c = spec_category_for_tab(k);
    let keep = |i: ShopItem| i.category == c;
    let s = catalog_spec();
    assert forall|i: int| 0 <= i < s.len() implies (keep(#[trigger] s[i]) <==> (i == 2 * k || i == 2 * k + 1)) by {
        assert(s[i] == catalog_ids()[i].spec_item());
        if i == 0 {} else if i == 1 {} else if i == 2 {} else if i == 3 {} else if i == 4 {}
        else if i == 5 {} else if i == 6 {} else if i == 7 {} else if i == 8 {} else if i == 9 {}
        else if i == 10 {} else {}
    }
    lemma_filter_two(s, keep, 2 * k, 2 * k + 1, s.len() as int);
    assert(s.take(s.len() as int) =~= s);
    assert(items_in_category(c) == filter_items(s, keep));
}

/// A fresh install starts with enough Puntos for a premium skin: the
/// starting balance buys a not-yet-owned item of the catalog.
pub proof fn lemma_starting_balance_buys_a_premium_skin()
    ensures
        exists|i: int|
            0 <= i < catalog_spec().len() && #[trigger] catalog_spec()[i].price > 0
                && can_buy(free_ids(catalog_ids()), 250, catalog_spec()[i].id, catalog_spec()[i].price),
{
    assert(catalog_spec()[3].price > 0);
    assert(!free_ids(catalog_ids()).contains(SkinId::SipaGold));
}

/// Everything equipped on a fresh install is owned on a fresh install.
pub proof fn lemma_default_equipment_is_owned(game: LahiGame)
    ensures
        free_ids(catalog_ids()).contains(SkinId::CharDefault),
        default_objects().contains_key(game) ==> free_ids(catalog_ids()).contains(default_objects()[game]),
{
    assert(catalog_ids()[0] == SkinId::CharDefault);
    assert(catalog_ids()[2] == SkinId::SipaDefault);
    assert(catalog_ids()[4] == SkinId::PresoDefault);
    assert(catalog_ids()[6] == SkinId::PatinteroDefault);
    assert(catalog_ids()[8] == SkinId::PikoDefault);
    assert(catalog_ids()[10] == SkinId::TinikDefault);
}

} // verus!
