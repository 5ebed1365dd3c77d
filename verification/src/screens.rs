//! The screen state machine: which screen each button leads to.
use vstd::prelude::*;
use crate::games::PlayMode;

verus! {

/// Every screen of the game maps to one variant.
#[derive(Clone, Copy, Debug, PartialEq, Eq, Structural)]
pub enum GameState {
    Splash,
    MainMenu,
    Avatar,
    Shop,
    Options,
    ModeSelect,
    GameSelect,
    Lobby,
    Loading,
    Results,
    InGame,
}

impl Default for GameState {
    /// The first screen shown when the program starts.
    fn default() -> (s: GameState)
        ensures
            s == GameState::Splash,
    {
        GameState::Splash
    }
}

/// Buttons of the main menu.
#[derive(Clone, Copy, Debug, PartialEq, Eq, Structural)]
pub enum MenuButton {
    Play,
    Avatar,
    Shop,
    Options,
    Quit,
}

/// What a main-menu button does: open a screen or quit the program.
#[derive(Clone, Copy, Debug, PartialEq, Eq, Structural)]
pub enum MenuAction {
    Open(GameState),
    Quit,
}

pub open spec fn spec_main_menu_action(button: MenuButton) -> MenuAction {
    match button {
        MenuButton::Play => MenuAction::Open(GameState::ModeSelect),
        MenuButton::Avatar => MenuAction::Open(GameState::Avatar),
        MenuButton::Shop => MenuAction::Open(GameState::Shop),
        MenuButton::Options => MenuAction::Open(GameState::Options),
        MenuButton::Quit => MenuAction::Quit,
    }
}

pub fn main_menu_action(button: MenuButton) -> (a: MenuAction)
    ensures
        a == spec_main_menu_action(button),
{
    match button {
        MenuButton::Play => MenuAction::Open(GameState::ModeSelect),
        MenuButton::Avatar => MenuAction::Open(GameState::Avatar),
        MenuButton::Shop => MenuAction::Open(GameState::Shop),
        MenuButton::Options => MenuAction::Open(GameState::Options),
        MenuButton::Quit => MenuAction::Quit,
    }
}

/// Buttons of the mode-select screen.
#[derive(Clone, Copy, Debug, PartialEq, Eq, Structural)]
pub enum ModeButton {
    SinglePlayer,
    Multiplayer,
    Back,
}

/// The play mode a mode button sets (if any) and the screen it opens.
pub open spec fn spec_mode_select(button: ModeButton) -> (Option<PlayMode>, GameState) {
    match button {
        ModeButton::SinglePlayer => (Some(PlayMode::SinglePlayer), GameState::GameSelect),
        ModeButton::Multiplayer => (Some(PlayMode::Multiplayer), GameState::Lobby),
        ModeButton::Back => (None, GameState::MainMenu),
    }
}

pub fn mode_select(button: ModeButton) -> (r: (Option<PlayMode>, GameState))
    ensures
        r == spec_mode_select(button),
{
    match button {
        ModeButton::SinglePlayer => (Some(PlayMode::SinglePlayer), GameState::GameSelect),
        ModeButton::Multiplayer => (Some(PlayMode::Multiplayer), GameState::Lobby),
        ModeButton::Back => (None, GameState::MainMenu),
    }
}

/// Navigation buttons of the Avatar screen.
#[derive(Clone, Copy, Debug, PartialEq, Eq, Structural)]
pub enum AvatarNav {
    Back,
    GoShop,
}

pub fn avatar_nav_target(button: AvatarNav) -> (s: GameState)
    ensures
        s == (match button {
            AvatarNav::Back => GameState::MainMenu,
            AvatarNav::GoShop => GameState::Shop,
        }),
{
    match button {
        AvatarNav::Back => GameState::MainMenu,
        AvatarNav::GoShop => GameState::Shop,
    }
}

/// Navigation buttons of the Shop screen.
#[derive(Clone, Copy, Debug, PartialEq, Eq, Structural)]
pub enum ShopNav {
    Back,
    GoAvatar,
}

pub fn shop_nav_target(button: ShopNav) -> (s: GameState)
    ensures
        s == (match button {
            ShopNav::Back => GameState::MainMenu,
            ShopNav::GoAvatar => GameState::Avatar,
        }),
{
    match button {
        ShopNav::Back => GameState::MainMenu,
        ShopNav::GoAvatar => GameState::Avatar,
    }
}

/// Start/Back buttons of the game-select and lobby screens.
#[derive(Clone, Copy, Debug, PartialEq, Eq, Structural)]
pub enum SetupNav {
    Start,
    Back,
}

/// Back returns to mode select; Start opens the loading screen, but
/// only once the setup is ready.
pub open spec fn spec_setup_nav_target(button: SetupNav, ready: bool) -> Option<GameState> {
    match button {
        SetupNav::Back => Some(GameState::ModeSelect),
        SetupNav::Start => if ready { Some(GameState::Loading) } else { None },
    }
}

pub fn setup_nav_target(button: SetupNav, ready: bool) -> (s: Option<GameState>)
    ensures
        s == spec_setup_nav_target(button, ready),
        button == SetupNav::Back ==> s == Some(GameState::ModeSelect),
        button == SetupNav::Start ==> (s == Some(GameState::Loading) <==> ready),
        button == SetupNav::Start ==> (s is None <==> !ready),
{
    match button {
        SetupNav::Back => Some(GameState::ModeSelect),
        SetupNav::Start => if ready {
            Some(GameState::Loading)
        } else {
            None
        },
    }
}

/// Buttons of the results screen.
#[derive(Clone, Copy, Debug, PartialEq, Eq, Structural)]
pub enum ResultsButton {
    PlayAgain,
    ChangeGame,
    MainMenu,
}

pub open spec fn spec_results_target(button: ResultsButton, mode: PlayMode) -> GameState {
    match button {
        ResultsButton::PlayAgain => GameState::Loading,
        ResultsButton::ChangeGame => if mode == PlayMode::Multiplayer {
            GameState::Lobby
        } else {
            GameState::GameSelect
        },
        ResultsButton::MainMenu => GameState::MainMenu,
    }
}

pub fn results_target(button: ResultsButton, mode: PlayMode) -> (s: GameState)
    ensures
        s == spec_results_target(button, mode),
{
    match button {
        ResultsButton::PlayAgain => GameState::Loading,
        ResultsButton::ChangeGame => if mode == PlayMode::Multiplayer {
            GameState::Lobby
        } else {
            GameState::GameSelect
        },
        ResultsButton::MainMenu => GameState::MainMenu,
    }
}

/// Buttons of the options screen.
#[derive(Clone, Copy, Debug, PartialEq, Eq, Structural)]
pub enum OptionsButton {
    Back,
    ToggleMusic,
    ToggleSfx,
}

/// What an options button does: Back returns to the main menu, the
/// toggles flip music or sound effects. Returns the screen to open (if
/// any) and the new music and sound-effect switches.
pub fn options_action(button: OptionsButton, music_enabled: bool, sfx_enabled: bool) -> (r: (
    Option<GameState>,
    bool,
    bool,
))
    ensures
        r == (match button {
            OptionsButton::Back => (Some(GameState::MainMenu), music_enabled, sfx_enabled),
            OptionsButton::ToggleMusic => (None, !music_enabled, sfx_enabled),
            OptionsButton::ToggleSfx => (None, music_enabled, !sfx_enabled),
        }),
{
    match button {
        OptionsButton::Back => (Some(GameState::MainMenu), music_enabled, sfx_enabled),
        OptionsButton::ToggleMusic => (None, !music_enabled, sfx_enabled),
        OptionsButton::ToggleSfx => (None, music_enabled, !sfx_enabled),
    }
}

/// The screen that follows the splash screen once its time is up.
pub fn after_splash() -> (s: GameState)
    ensures
        s == GameState::MainMenu,
{
    GameState::MainMenu
}

/// The screen that follows the loading screen once loading is done.
pub fn after_loading() -> (s: GameState)
    ensures
        s == GameState::InGame,
{
    GameState::InGame
}

/// Going forward and pressing Back retraces the path: Play opens mode
/// select and its Back returns to the main menu; each mode opens its own
/// setup screen (game select for single player, the lobby for
/// multiplayer) and that screen's Back returns to mode select; the other
/// menu buttons open the screen they are named after, and Quit opens
/// none.
pub proof fn lemma_navigation_round_trips(ready: bool)
    ensures
        spec_main_menu_action(MenuButton::Play) == MenuAction::Open(GameState::ModeSelect),
        spec_mode_select(ModeButton::Back) == (None::<PlayMode>, GameState::MainMenu),
        spec_mode_select(ModeButton::SinglePlayer) == (Some(PlayMode::SinglePlayer), GameState::GameSelect),
        spec_mode_select(ModeButton::Multiplayer) == (Some(PlayMode::Multiplayer), GameState::Lobby),
        spec_setup_nav_target(SetupNav::Back, ready) == Some(GameState::ModeSelect),
        spec_main_menu_action(MenuButton::Avatar) == MenuAction::Open(GameState::Avatar),
        spec_main_menu_action(MenuButton::Shop) == MenuAction::Open(GameState::Shop),
        spec_main_menu_action(MenuButton::Options) == MenuAction::Open(GameState::Options),
        spec_main_menu_action(MenuButton::Quit) == MenuAction::Quit,
        spec_results_target(ResultsButton::PlayAgain, PlayMode::SinglePlayer) == GameState::Loading,
        spec_results_target(ResultsButton::PlayAgain, PlayMode::Multiplayer) == GameState::Loading,
        spec_results_target(ResultsButton::MainMenu, PlayMode::SinglePlayer) == GameState::MainMenu,
        spec_results_target(ResultsButton::MainMenu, PlayMode::Multiplayer) == GameState::MainMenu,
{
}

/// Back on a setup screen always returns to mode select, whether or not
/// the setup is ready; only Start depends on readiness, opening the
/// loading screen when ready and staying put otherwise.
pub proof fn lemma_setup_back_ignores_readiness(ready: bool)
    ensures
        spec_setup_nav_target(SetupNav::Back, ready) == Some(GameState::ModeSelect),
        spec_setup_nav_target(SetupNav::Back, ready) == spec_setup_nav_target(SetupNav::Back, !ready),
        spec_setup_nav_target(SetupNav::Start, ready) == (if ready { Some(GameState::Loading) } else { None::<GameState> }),
        spec_setup_nav_target(SetupNav::Start, ready) != spec_setup_nav_target(SetupNav::Back, ready),
{
}

/// "Change game" on the results screen returns to the setup screen of
/// the mode the player picked: the lobby for multiplayer, game select
/// for single player.
pub proof fn lemma_change_game_returns_to_mode_setup(button: ModeButton)
    requires
        button != ModeButton::Back,
    ensures
        ({
            let (mode, screen) = spec_mode_select(button);
            spec_results_target(ResultsButton::ChangeGame, mode->0) == screen
        }),
{
}

} // verus!
