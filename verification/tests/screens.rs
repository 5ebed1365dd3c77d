use dulahi::games::{LahiGame, PlayMode};
use dulahi::loading::{advance_trivia, first_trivia};
use dulahi::screens::{
    after_loading, after_splash, avatar_nav_target, main_menu_action, mode_select, options_action,
    results_target, setup_nav_target, shop_nav_target, AvatarNav, GameState, MenuAction, MenuButton,
    ModeButton, OptionsButton, ResultsButton, SetupNav, ShopNav,
};

#[test]
fn starts_on_splash() {
    assert_eq!(GameState::default(), GameState::Splash);
    assert_eq!(after_splash(), GameState::MainMenu);
    assert_eq!(after_loading(), GameState::InGame);
}

#[test]
fn main_menu_routes() {
    assert_eq!(main_menu_action(MenuButton::Play), MenuAction::Open(GameState::ModeSelect));
    assert_eq!(main_menu_action(MenuButton::Avatar), MenuAction::Open(GameState::Avatar));
    assert_eq!(main_menu_action(MenuButton::Shop), MenuAction::Open(GameState::Shop));
    assert_eq!(main_menu_action(MenuButton::Options), MenuAction::Open(GameState::Options));
    assert_eq!(main_menu_action(MenuButton::Quit), MenuAction::Quit);
}

#[test]
fn mode_select_routes() {
    assert_eq!(mode_select(ModeButton::SinglePlayer), (Some(PlayMode::SinglePlayer), GameState::GameSelect));
    assert_eq!(mode_select(ModeButton::Multiplayer), (Some(PlayMode::Multiplayer), GameState::Lobby));
    assert_eq!(mode_select(ModeButton::Back), (None, GameState::MainMenu));
}

#[test]
fn other_screens() {
    assert_eq!(avatar_nav_target(AvatarNav::Back), GameState::MainMenu);
    assert_eq!(avatar_nav_target(AvatarNav::GoShop), GameState::Shop);
    assert_eq!(shop_nav_target(ShopNav::Back), GameState::MainMenu);
    assert_eq!(shop_nav_target(ShopNav::GoAvatar), GameState::Avatar);
    assert_eq!(setup_nav_target(SetupNav::Back, false), Some(GameState::ModeSelect));
    assert_eq!(setup_nav_target(SetupNav::Start, false), None);
    assert_eq!(setup_nav_target(SetupNav::Start, true), Some(GameState::Loading));
    assert_eq!(options_action(OptionsButton::Back, true, false), (Some(GameState::MainMenu), true, false));
    assert_eq!(options_action(OptionsButton::ToggleMusic, true, false), (None, false, false));
    assert_eq!(options_action(OptionsButton::ToggleSfx, true, false), (None, true, true));
}

#[test]
fn results_routes() {
    assert_eq!(results_target(ResultsButton::PlayAgain, PlayMode::SinglePlayer), GameState::Loading);
    assert_eq!(results_target(ResultsButton::ChangeGame, PlayMode::SinglePlayer), GameState::GameSelect);
    assert_eq!(results_target(ResultsButton::ChangeGame, PlayMode::Multiplayer), GameState::Lobby);
    assert_eq!(results_target(ResultsButton::MainMenu, PlayMode::Multiplayer), GameState::MainMenu);
}

#[test]
fn change_game_returns_to_chosen_mode_screen() {
    for b in [ModeButton::SinglePlayer, ModeButton::Multiplayer] {
        let (mode, screen) = mode_select(b);
        assert_eq!(results_target(ResultsButton::ChangeGame, mode.unwrap()), screen);
    }
}

#[test]
fn trivia_rotation() {
    assert_eq!(first_trivia(LahiGame::Sipa), LahiGame::Sipa.trivia()[0]);
    assert_eq!(first_trivia(LahiGame::NoGame), "Dulahi 3D — Larong Lahi, digital edition.");
    let mut idx = 0;
    let mut seen = Vec::new();
    for _ in 0..8 {
        let (next, fact) = advance_trivia(LahiGame::Patintero, idx).unwrap();
        assert_eq!(fact, LahiGame::Patintero.trivia()[next]);
        seen.push(next);
        idx = next;
    }
    assert_eq!(seen, vec![1, 2, 3, 0, 1, 2, 3, 0]);
    assert_eq!(advance_trivia(LahiGame::NoGame, 5).unwrap().0, 0);
}
