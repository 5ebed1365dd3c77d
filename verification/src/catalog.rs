//! The skin catalog, the player's inventory of owned skins and the
//! skins currently equipped.
use vstd::prelude::*;
use crate::games::LahiGame;

verus! {

/// Identifies one cosmetic item of the catalog.
#[derive(Clone, Copy, Debug, PartialEq, Eq, Structural)]
pub enum SkinId {
    CharDefault,
    CharDatu,
    SipaDefault,
    SipaGold,
    PresoDefault,
    PresoBronze,
    PatinteroDefault,
    PatinteroNeon,
    PikoDefault,
    PikoJade,
    TinikDefault,
    TinikThorned,
}

/// Which cosmetic slot an item belongs to.
#[derive(Clone, Copy, Debug, PartialEq, Eq, Structural)]
pub enum SkinCategory {
    Character,
    GameObject(LahiGame),
}

/// One purchasable/equippable cosmetic item.
#[derive(Clone, Copy, Debug)]
pub struct ShopItem {
    pub id: SkinId,
    pub name: &'static str,
    pub price: u32,
    pub category: SkinCategory,
    pub icon: &'static str,
}

impl SkinId {
    pub open spec fn spec_as_str(self) -> Seq<char> {
        match self {
            SkinId::CharDefault => "char_default"@,
            SkinId::CharDatu => "char_datu"@,
            SkinId::SipaDefault => "sipa_default"@,
            SkinId::SipaGold => "sipa_gold"@,
            SkinId::PresoDefault => "preso_default"@,
            SkinId::PresoBronze => "preso_bronze"@,
            SkinId::PatinteroDefault => "patintero_default"@,
            SkinId::PatinteroNeon => "patintero_neon"@,
            SkinId::PikoDefault => "piko_default"@,
            SkinId::PikoJade => "piko_jade"@,
            SkinId::TinikDefault => "tinik_default"@,
            SkinId::TinikThorned => "tinik_thorned"@,
        }
    }

    /// The catalog entry of this item.
    pub open spec fn spec_item(self) -> ShopItem {
        match self {
            SkinId::CharDefault => ShopItem { id: self, name: "Manlilikha (Default)", price: 0, category: SkinCategory::Character, icon: "◈" },
            SkinId::CharDatu => ShopItem { id: self, name: "Datu's Regalia", price: 450, category: SkinCategory::Character, icon: "❖" },
            SkinId::SipaDefault => ShopItem { id: self, name: "Rattan Takyan", price: 0, category: SkinCategory::GameObject(LahiGame::Sipa), icon: "◉" },
            SkinId::SipaGold => ShopItem { id: self, name: "Gilded Takyan", price: 180, category: SkinCategory::GameObject(LahiGame::Sipa), icon: "✦" },
            SkinId::PresoDefault => ShopItem { id: self, name: "Tin Lata", price: 0, category: SkinCategory::GameObject(LahiGame::TumbangPreso), icon: "◎" },
            SkinId::PresoBronze => ShopItem { id: self, name: "Bronze Lata", price: 180, category: SkinCategory::GameObject(LahiGame::TumbangPreso), icon: "⊙" },
            SkinId::PatinteroDefault => ShopItem { id: self, name: "Chalk Lines", price: 0, category: SkinCategory::GameObject(LahiGame::Patintero), icon: "⊞" },
            SkinId::PatinteroNeon => ShopItem { id: self, name: "Neon Lines", price: 180, category: SkinCategory::GameObject(LahiGame::Patintero), icon: "▦" },
            SkinId::PikoDefault => ShopItem { id: self, name: "Stone Pamato", price: 0, category: SkinCategory::GameObject(LahiGame::Piko), icon: "◫" },
            SkinId::PikoJade => ShopItem { id: self, name: "Jade Pamato", price: 180, category: SkinCategory::GameObject(LahiGame::Piko), icon: "◇" },
            SkinId::TinikDefault => ShopItem { id: self, name: "Woven Tinik", price: 0, category: SkinCategory::GameObject(LahiGame::LuksongTinik), icon: "⇑" },
            SkinId::TinikThorned => ShopItem { id: self, name: "Thorned Vine Tinik", price: 180, category: SkinCategory::GameObject(LahiGame::LuksongTinik), icon: "⚡" },
        }
    }

    /// The catalog entry of this item.
    pub fn item(&self) -> (i: ShopItem)
        ensures
            i == self.spec_item(),
    {
        match self {
            SkinId::CharDefault => ShopItem { id: *self, name: "Manlilikha (Default)", price: 0, category: SkinCategory::Character, icon: "◈" },
            SkinId::CharDatu => ShopItem { id: *self, name: "Datu's Regalia", price: 450, category: SkinCategory::Character, icon: "❖" },
            SkinId::SipaDefault => ShopItem { id: *self, name: "Rattan Takyan", price: 0, category: SkinCategory::GameObject(LahiGame::Sipa), icon: "◉" },
            SkinId::SipaGold => ShopItem { id: *self, name: "Gilded Takyan", price: 180, category: SkinCategory::GameObject(LahiGame::Sipa), icon: "✦" },
            SkinId::PresoDefault => ShopItem { id: *self, name: "Tin Lata", price: 0, category: SkinCategory::GameObject(LahiGame::TumbangPreso), icon: "◎" },
            SkinId::PresoBronze => ShopItem { id: *self, name: "Bronze Lata", price: 180, category: SkinCategory::GameObject(LahiGame::TumbangPreso), icon: "⊙" },
            SkinId::PatinteroDefault => ShopItem { id: *self, name: "Chalk Lines", price: 0, category: SkinCategory::GameObject(LahiGame::Patintero), icon: "⊞" },
            SkinId::PatinteroNeon => ShopItem { id: *self, name: "Neon Lines", price: 180, category: SkinCategory::GameObject(LahiGame::Patintero), icon: "▦" },
            SkinId::PikoDefault => ShopItem { id: *self, name: "Stone Pamato", price: 0, category: SkinCategory::GameObject(LahiGame::Piko), icon: "◫" },
            SkinId::PikoJade => ShopItem { id: *self, name: "Jade Pamato", price: 180, category: SkinCategory::GameObject(LahiGame::Piko), icon: "◇" },
            SkinId::TinikDefault => ShopItem { id: *self, name: "Woven Tinik", price: 0, category: SkinCategory::GameObject(LahiGame::LuksongTinik), icon: "⇑" },
            SkinId::TinikThorned => ShopItem { id: *self, name: "Thorned Vine Tinik", price: 180, category: SkinCategory::GameObject(LahiGame::LuksongTinik), icon: "⚡" },
        }
    }

    /// The item's stable text identifier.
    pub fn as_str(&self) -> (s: &'static str)
        ensures
            s@ == self.spec_as_str(),
    {
        match self {
            SkinId::CharDefault => "char_default",
            SkinId::CharDatu => "char_datu",
            SkinId::SipaDefault => "sipa_default",
            SkinId::SipaGold => "sipa_gold",
            SkinId::PresoDefault => "preso_default",
            SkinId::PresoBronze => "preso_bronze",
            SkinId::PatinteroDefault => "patintero_default",
            SkinId::PatinteroNeon => "patintero_neon",
            SkinId::PikoDefault => "piko_default",
            SkinId::PikoJade => "piko_jade",
            SkinId::TinikDefault => "tinik_default",
            SkinId::TinikThorned => "tinik_thorned",
        }
    }
}

/// The catalog in display order: each category has one free default
/// (price 0, owned from the start) followed by one premium unlockable.
pub open spec fn catalog_ids() -> Seq<SkinId> {
    seq![
        SkinId::CharDefault,
        SkinId::CharDatu,
        SkinId::SipaDefault,
        SkinId::SipaGold,
        SkinId::PresoDefault,
        SkinId::PresoBronze,
        SkinId::PatinteroDefault,
        SkinId::PatinteroNeon,
        SkinId::PikoDefault,
        SkinId::PikoJade,
        SkinId::TinikDefault,
        SkinId::TinikThorned,
    ]
}

pub open spec fn catalog_spec() -> Seq<ShopItem> {
    catalog_ids().map_values(|id: SkinId| id.spec_item())
}

/// Static catalog of every skin in the game.
pub fn shop_catalog() -> (r: &'static [ShopItem])
    ensures
        r@ == catalog_spec(),
{
    let r: &'static [ShopItem] = &[
        ShopItem { id: SkinId::CharDefault, name: "Manlilikha (Default)", price: 0, category: SkinCategory::Character, icon: "◈" },
        ShopItem { id: SkinId::CharDatu, name: "Datu's Regalia", price: 450, category: SkinCategory::Character, icon: "❖" },
        ShopItem { id: SkinId::SipaDefault, name: "Rattan Takyan", price: 0, category: SkinCategory::GameObject(LahiGame::Sipa), icon: "◉" },
        ShopItem { id: SkinId::SipaGold, name: "Gilded Takyan", price: 180, category: SkinCategory::GameObject(LahiGame::Sipa), icon: "✦" },
        ShopItem { id: SkinId::PresoDefault, name: "Tin Lata", price: 0, category: SkinCategory::GameObject(LahiGame::TumbangPreso), icon: "◎" },
        ShopItem { id: SkinId::PresoBronze, name: "Bronze Lata", price: 180, category: SkinCategory::GameObject(LahiGame::TumbangPreso), icon: "⊙" },
        ShopItem { id: SkinId::PatinteroDefault, name: "Chalk Lines", price: 0, category: SkinCategory::GameObject(LahiGame::Patintero), icon: "⊞" },
        ShopItem { id: SkinId::PatinteroNeon, name: "Neon Lines", price: 180, category: SkinCategory::GameObject(LahiGame::Patintero), icon: "▦" },
        ShopItem { id: SkinId::PikoDefault, name: "Stone Pamato", price: 0, category: SkinCategory::GameObject(LahiGame::Piko), icon: "◫" },
        ShopItem { id: SkinId::PikoJade, name: "Jade Pamato", price: 180, category: SkinCategory::GameObject(LahiGame::Piko), icon: "◇" },
        ShopItem { id: SkinId::TinikDefault, name: "Woven Tinik", price: 0, category: SkinCategory::GameObject(LahiGame::LuksongTinik), icon: "⇑" },
        ShopItem { id: SkinId::TinikThorned, name: "Thorned Vine Tinik", price: 180, category: SkinCategory::GameObject(LahiGame::LuksongTinik), icon: "⚡" },
    ];
    assert(r@ =~= catalog_spec());
    r
}

/// The ids among `ids` of the items that cost nothing.
pub open spec fn free_ids(ids: Seq<SkinId>) -> Set<SkinId> {
    Set::new(|id: SkinId| ids.contains(id) && id.spec_item().price == 0)
}

/// Appending an id to a sequence adds exactly that id to what it contains.
proof fn lemma_push_contains(s: Seq<SkinId>, id: SkinId)
    ensures
        forall|x: SkinId| #[trigger] s.push(id).contains(x) <==> s.contains(x) || x == id,
{
    assert forall|x: SkinId| #[trigger] s.push(id).contains(x) <==> s.contains(x) || x == id by {
        if s.push(id).contains(x) && x != id {
            let j = choose|j: int| 0 <= j < s.len() + 1 && s.push(id)[j] == x;
            assert(s[j] == x);
        }
        if s.contains(x) {
            let j = choose|j: int| 0 <= j < s.len() && s[j] == x;
            assert(s.push(id)[j] == x);
        }
        if x == id {
            assert(s.push(id)[s.len() as int] == x);
        }
    }
}

/// The item ids the player owns.
pub struct Inventory {
    owned: Vec<SkinId>,
}

impl View for Inventory {
    type V = Set<SkinId>;

    closed spec fn view(&self) -> Set<SkinId> {
        self.owned@.to_set()
    }
}

impl Inventory {
    #[verifier::type_invariant]
    closed spec fn no_duplicates(self) -> bool {
        self.owned@.no_duplicates()
    }

    /// An inventory that owns nothing.
    pub fn empty() -> (inv: Inventory)
        ensures
            inv@ == Set::<SkinId>::empty(),
    {
        let inv = Inventory { owned: Vec::new() };
        assert(inv.owned@.to_set() =~= Set::<SkinId>::empty());
        inv
    }

    /// Whether the player owns `id`.
    pub fn contains(&self, id: SkinId) -> (b: bool)
        ensures
            b == self@.contains(id),
    {
        let mut i: usize = 0;
        while i < self.owned.len()
            invariant
                i <= self.owned@.len(),
                forall|j: int| 0 <= j < i ==> self.owned@[j] != id,
            decreases self.owned@.len() - i,
        {
            if self.owned[i] == id {
                assert(self.owned@.to_set().contains(id)) by {
                    assert(self.owned@.contains(id));
                }
                return true;
            }
            i = i + 1;
        }
        assert(!self.owned@.to_set().contains(id)) by {
            if self.owned@.contains(id) {
                let j = choose|j: int| 0 <= j < self.owned@.len() && self.owned@[j] == id;
            }
        }
        false
    }

    /// Adds `id`; returns whether it was not owned before.
    pub fn insert(&mut self, id: SkinId) -> (added: bool)
        ensures
            added == !old(self)@.contains(id),
            final(self)@ == old(self)@.insert(id),
    {
        if self.contains(id) {
            assert(self@.insert(id) =~= self@);
            false
        } else {
            proof { use_type_invariant(&*self); }
            let ghost before = self.owned@;
            assert(!before.contains(id));
            let mut owned: Vec<SkinId> = Vec::new();
            std::mem::swap(&mut owned, &mut self.owned);
            owned.push(id);
            self.owned = owned;
            assert(self.owned@ =~= before.push(id));
            assert(before.push(id).to_set() =~= before.to_set().insert(id)) by {
                lemma_push_contains(before, id);
            }
            true
        }
    }

    /// The owned ids, each once.
    pub fn owned_ids(&self) -> (r: Vec<SkinId>)
        ensures
            r@.to_set() == self@,
            r@.no_duplicates(),
    {
        proof { use_type_invariant(self); }
        self.owned.clone()
    }
}

impl Default for Inventory {
    /// Default skins (price 0) are owned from the start, so every
    /// category always has something equippable.
    fn default() -> (inv: Inventory)
        ensures
            inv@ == free_ids(catalog_ids()),
    {
        let catalog = shop_catalog();
        let mut owned = Inventory::empty();
        let mut i: usize = 0;
        while i < catalog.len()
            invariant
                catalog@ == catalog_spec(),
                i <= catalog@.len(),
                owned@ == free_ids(catalog_ids().take(i as int)),
            decreases catalog@.len() - i,
        {
            let item = catalog[i];
            let ghost prefix = catalog_ids().take(i as int);
            let ghost next = catalog_ids().take(i + 1);
            assert(next =~= prefix.push(catalog_ids()[i as int]));
            assert(item.id == catalog_ids()[i as int]);
            if item.price == 0 {
                owned.insert(item.id);
            }
            assert(owned@ =~= free_ids(next)) by {
                lemma_push_contains(prefix, item.id);
            }
            i = i + 1;
        }
        assert(catalog_ids().take(12) =~= catalog_ids());
        owned
    }
}

/// Position of a game's slot in the equipped-object table.
pub open spec fn spec_game_slot(game: LahiGame) -> int {
    match game {
        LahiGame::NoGame => 0,
        LahiGame::Sipa => 1,
        LahiGame::TumbangPreso => 2,
        LahiGame::Patintero => 3,
        LahiGame::Piko => 4,
        LahiGame::LuksongTinik => 5,
    }
}

fn game_slot(game: LahiGame) -> (i: usize)
    ensures
        i == spec_game_slot(game),
{
    match game {
        LahiGame::NoGame => 0,
        LahiGame::Sipa => 1,
        LahiGame::TumbangPreso => 2,
        LahiGame::Patintero => 3,
        LahiGame::Piko => 4,
        LahiGame::LuksongTinik => 5,
    }
}

/// The object skins equipped on a fresh install: each game's default.
pub open spec fn default_objects() -> Map<LahiGame, SkinId> {
    map![
        LahiGame::Sipa => SkinId::SipaDefault,
        LahiGame::TumbangPreso => SkinId::PresoDefault,
        LahiGame::Patintero => SkinId::PatinteroDefault,
        LahiGame::Piko => SkinId::PikoDefault,
        LahiGame::LuksongTinik => SkinId::TinikDefault,
    ]
}

/// The equipped character skin and one equipped object skin per game.
pub struct Equipped {
    character: SkinId,
    objects: Vec<Option<SkinId>>,
}

impl Equipped {
    #[verifier::type_invariant]
    closed spec fn one_slot_per_game(self) -> bool {
        self.objects@.len() == 6
    }

    /// The equipped character skin.
    pub closed spec fn spec_character(self) -> SkinId {
        self.character
    }

    /// The equipped object skin of each game that has one.
    pub closed spec fn spec_objects(self) -> Map<LahiGame, SkinId> {
        Map::new(
            |g: LahiGame| self.objects@[spec_game_slot(g)] is Some,
            |g: LahiGame| self.objects@[spec_game_slot(g)]->0,
        )
    }

    pub fn character(&self) -> (id: SkinId)
        ensures
            id == self.spec_character(),
    {
        self.character
    }

    /// The object skin equipped for `game`, if any.
    pub fn object_for(&self, game: LahiGame) -> (r: Option<SkinId>)
        ensures
            r == (if self.spec_objects().contains_key(game) {
                Some(self.spec_objects()[game])
            } else {
                None
            }),
    {
        proof { use_type_invariant(self); }
        self.objects[game_slot(game)]
    }

    /// Equips a character skin.
    pub fn equip_character(&mut self, id: SkinId)
        ensures
            final(self).spec_character() == id,
            final(self).spec_objects() == old(self).spec_objects(),
    {
        proof { use_type_invariant(&*self); }
        self.character = id;
    }

    /// Equips an owned character skin; refuses, changing nothing, an id
    /// that is not owned or is not a character skin. Returns whether it
    /// was equipped.
    pub fn equip_owned_character(&mut self, inventory: &Inventory, id: SkinId) -> (equipped: bool)
        ensures
            equipped == (inventory@.contains(id) && id.spec_item().category == SkinCategory::Character),
            equipped ==> final(self).spec_character() == id,
            !equipped ==> final(self).spec_character() == old(self).spec_character(),
            final(self).spec_objects() == old(self).spec_objects(),
    {
        if inventory.contains(id) && id.item().category == SkinCategory::Character {
            self.equip_character(id);
            true
        } else {
            false
        }
    }

    /// Equips an owned object skin of `game`; refuses, changing nothing,
    /// an id that is not owned or belongs to another category. Returns
    /// whether it was equipped.
    pub fn equip_owned_object(&mut self, inventory: &Inventory, game: LahiGame, id: SkinId) -> (equipped: bool)
        ensures
            equipped == (inventory@.contains(id) && id.spec_item().category == SkinCategory::GameObject(game)),
            equipped ==> final(self).spec_objects() == old(self).spec_objects().insert(game, id),
            !equipped ==> final(self).spec_objects() == old(self).spec_objects(),
            final(self).spec_character() == old(self).spec_character(),
    {
        if inventory.contains(id) && id.item().category == SkinCategory::GameObject(game) {
            self.equip_object(game, id);
            true
        } else {
            false
        }
    }

    /// Equips `id` as the object skin of `game`; returns the skin it
    /// replaces, if any.
    pub fn equip_object(&mut self, game: LahiGame, id: SkinId) -> (previous: Option<SkinId>)
        ensures
            final(self).spec_character() == old(self).spec_character(),
            final(self).spec_objects() == old(self).spec_objects().insert(game, id),
            previous == (if old(self).spec_objects().contains_key(game) {
                Some(old(self).spec_objects()[game])
            } else {
                None
            }),
    {
        proof { use_type_invariant(&*self); }
        let slot = game_slot(game);
        let previous = self.objects[slot];
        let mut objects: Vec<Option<SkinId>> = self.objects.clone();
        assert(objects@ =~= self.objects@);
        objects.set(slot, Some(id));
        self.objects = objects;
        assert(self.spec_objects() =~= old(self).spec_objects().insert(game, id)) by {
            assert forall|g: LahiGame| #![auto] spec_game_slot(g) == spec_game_slot(game) ==> g == game by {}
        }
        previous
    }
}

/// Reading back an equipped object skin gives the skin just equipped
/// for that game, and every other game keeps its skin.
pub proof fn lemma_equipped_object_reads_back(before: Equipped, after: Equipped, game: LahiGame, id: SkinId)
    requires
        after.spec_objects() == before.spec_objects().insert(game, id),
    ensures
        after.spec_objects().contains_key(game),
        after.spec_objects()[game] == id,
        forall|g: LahiGame| g != game ==> (after.spec_objects().contains_key(g) == before.spec_objects().contains_key(g)
            && after.spec_objects()[g] == before.spec_objects()[g]),
{
}

impl Default for Equipped {
    /// The default character skin and each game's default object skin.
    fn default() -> (e: Equipped)
        ensures
            e.spec_character() == SkinId::CharDefault,
            e.spec_objects() == default_objects(),
    {
        let objects: Vec<Option<SkinId>> = vec![
            None,
            Some(SkinId::SipaDefault),
            Some(SkinId::PresoDefault),
            Some(SkinId::PatinteroDefault),
            Some(SkinId::PikoDefault),
            Some(SkinId::TinikDefault),
        ];
        let e = Equipped { character: SkinId::CharDefault, objects };
        assert(e.spec_objects() =~= default_objects());
        e
    }
}

} // verus!
