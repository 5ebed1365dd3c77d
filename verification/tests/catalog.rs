use dulahi::catalog::{shop_catalog, Equipped, Inventory, SkinCategory, SkinId};
use dulahi::games::LahiGame;

#[test]
fn catalog_has_every_item_in_order() {
    let c = shop_catalog();
    assert_eq!(c.len(), 12);
    let ids: Vec<&str> = c.iter().map(|i| i.id.as_str()).collect();
    assert_eq!(
        ids,
        vec![
            "char_default",
            "char_datu",
            "sipa_default",
            "sipa_gold",
            "preso_default",
            "preso_bronze",
            "patintero_default",
            "patintero_neon",
            "piko_default",
            "piko_jade",
            "tinik_default",
            "tinik_thorned"
        ]
    );
    assert_eq!(c[1].name, "Datu's Regalia");
    assert_eq!(c[1].price, 450);
    assert_eq!(c[1].icon, "❖");
    assert_eq!(c[7].category, SkinCategory::GameObject(LahiGame::Patintero));
    assert_eq!(c[7].price, 180);
}

#[test]
fn default_inventory_owns_exactly_the_free_items() {
    let inv = Inventory::default();
    for item in shop_catalog() {
        assert_eq!(inv.contains(item.id), item.price == 0, "{:?}", item.id);
    }
    assert_eq!(inv.owned_ids().len(), 6);
}

#[test]
fn inventory_insert_reports_new_items() {
    let mut inv = Inventory::empty();
    assert!(!inv.contains(SkinId::PikoJade));
    assert!(inv.insert(SkinId::PikoJade));
    assert!(inv.contains(SkinId::PikoJade));
    assert!(!inv.insert(SkinId::PikoJade));
    assert_eq!(inv.owned_ids(), vec![SkinId::PikoJade]);
}

#[test]
fn default_equipment() {
    let e = Equipped::default();
    assert_eq!(e.character(), SkinId::CharDefault);
    assert_eq!(e.object_for(LahiGame::Sipa), Some(SkinId::SipaDefault));
    assert_eq!(e.object_for(LahiGame::TumbangPreso), Some(SkinId::PresoDefault));
    assert_eq!(e.object_for(LahiGame::Patintero), Some(SkinId::PatinteroDefault));
    assert_eq!(e.object_for(LahiGame::Piko), Some(SkinId::PikoDefault));
    assert_eq!(e.object_for(LahiGame::LuksongTinik), Some(SkinId::TinikDefault));
    assert_eq!(e.object_for(LahiGame::NoGame), None);
}

#[test]
fn default_equipment_is_owned() {
    let e = Equipped::default();
    let inv = Inventory::default();
    assert!(inv.contains(e.character()));
    for g in LahiGame::all() {
        assert!(inv.contains(e.object_for(*g).unwrap()));
    }
}

#[test]
fn equipping_reads_back() {
    let mut e = Equipped::default();
    e.equip_character(SkinId::CharDatu);
    assert_eq!(e.character(), SkinId::CharDatu);
    assert_eq!(e.equip_object(LahiGame::Sipa, SkinId::SipaGold), Some(SkinId::SipaDefault));
    assert_eq!(e.object_for(LahiGame::Sipa), Some(SkinId::SipaGold));
    assert_eq!(e.object_for(LahiGame::Piko), Some(SkinId::PikoDefault));
    assert_eq!(e.character(), SkinId::CharDatu);
    assert_eq!(e.equip_object(LahiGame::NoGame, SkinId::PikoJade), None);
    assert_eq!(e.object_for(LahiGame::NoGame), Some(SkinId::PikoJade));
}

#[test]
fn one_free_default_and_one_premium_per_category() {
    let mut categories = vec![SkinCategory::Character];
    for g in LahiGame::all() {
        categories.push(SkinCategory::GameObject(*g));
    }
    for cat in categories {
        let prices: Vec<u32> = shop_catalog().iter().filter(|i| i.category == cat).map(|i| i.price).collect();
        assert_eq!(prices.len(), 2, "{:?}", cat);
        assert_eq!(prices[0], 0);
        assert!(prices[1] > 0);
    }
}

#[test]
fn item_matches_catalog_entry() {
    for entry in shop_catalog() {
        let item = entry.id.item();
        assert_eq!(item.id, entry.id);
        assert_eq!(item.name, entry.name);
        assert_eq!(item.price, entry.price);
        assert_eq!(item.category, entry.category);
        assert_eq!(item.icon, entry.icon);
    }
    assert_eq!(SkinId::CharDatu.item().price, 450);
    assert_eq!(SkinId::PikoJade.item().category, SkinCategory::GameObject(LahiGame::Piko));
}

#[test]
fn equip_owned_character_checks_ownership_and_category() {
    let mut inv = Inventory::default();
    let mut e = Equipped::default();
    assert!(!e.equip_owned_character(&inv, SkinId::CharDatu));
    assert_eq!(e.character(), SkinId::CharDefault);
    assert!(!e.equip_owned_character(&inv, SkinId::SipaDefault));
    assert_eq!(e.character(), SkinId::CharDefault);
    inv.insert(SkinId::CharDatu);
    assert!(e.equip_owned_character(&inv, SkinId::CharDatu));
    assert_eq!(e.character(), SkinId::CharDatu);
    assert_eq!(e.object_for(LahiGame::Sipa), Some(SkinId::SipaDefault));
}

#[test]
fn equip_owned_object_checks_ownership_and_game() {
    let mut inv = Inventory::default();
    let mut e = Equipped::default();
    assert!(!e.equip_owned_object(&inv, LahiGame::Piko, SkinId::PikoJade));
    assert_eq!(e.object_for(LahiGame::Piko), Some(SkinId::PikoDefault));
    inv.insert(SkinId::PikoJade);
    assert!(!e.equip_owned_object(&inv, LahiGame::Sipa, SkinId::PikoJade));
    assert_eq!(e.object_for(LahiGame::Sipa), Some(SkinId::SipaDefault));
    assert!(!e.equip_owned_object(&inv, LahiGame::Piko, SkinId::CharDefault));
    assert!(e.equip_owned_object(&inv, LahiGame::Piko, SkinId::PikoJade));
    assert_eq!(e.object_for(LahiGame::Piko), Some(SkinId::PikoJade));
    assert_eq!(e.character(), SkinId::CharDefault);
}
