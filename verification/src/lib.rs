//! Game rules, progression and screen logic of Dulahi 3D, a collection
//! of Larong Lahi (traditional Filipino games): the games and their
//! team formats, the skin catalog and shop, rank and rewards, the LAN
//! lobby, single-player setup and the screen state machine.
pub mod games;
pub mod progression;
pub mod catalog;
pub mod shop;
pub mod avatar;
pub mod lobby;
pub mod game_select;
pub mod screens;
pub mod loading;

pub use games::{LahiGame, MatchFormat, TeamSide, PlayMode, Difficulty, SelectedGame, SelectedFormat};
pub use progression::{Currency, RankPoints, RankTier, PlayerStats};
pub use catalog::{SkinId, SkinCategory, ShopItem, Inventory, Equipped, shop_catalog};
pub use lobby::{LobbyState, SlotKind, SlotAction};
pub use screens::GameState;
