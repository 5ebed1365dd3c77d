use dulahi::games::{Difficulty, LahiGame, MatchFormat, TeamSide};
use dulahi::lobby::{GamePickerButton, LobbyState, RoomButton, SlotAction, SlotKind};

fn fill_with_ai(l: &mut LobbyState) {
    for side in [TeamSide::A, TeamSide::B] {
        for i in 0..l.format().team_size() {
            l.apply_slot_action(side, i, SlotAction::AddAi);
        }
    }
}

#[test]
fn fresh_lobby() {
    let l = LobbyState::default();
    assert!(l.is_host());
    assert_eq!(l.game_idx(), 0);
    assert_eq!(l.game(), LahiGame::Sipa);
    assert_eq!(l.format(), MatchFormat::OneVOne);
    assert_eq!(l.team_a(), &vec![SlotKind::You]);
    assert_eq!(l.team_b(), &vec![SlotKind::Empty]);
    assert!(!l.ready_to_start());
    assert_eq!(l.start_match(), None);
}

#[test]
fn room_buttons_and_status() {
    let mut l = LobbyState::new();
    assert_eq!(l.status_message(), "Hosting — waiting for players. Fill empty slots with AI if needed.");
    l.press_room_button(RoomButton::Join);
    assert!(!l.is_host());
    assert_eq!(l.status_message(), "Scanning for rooms on your Wi-Fi network...");
    l.press_room_button(RoomButton::Host);
    assert!(l.is_host());
}

#[test]
fn game_picker_wraps_and_resets() {
    let mut l = LobbyState::new();
    l.pick_game(GamePickerButton::Prev);
    assert_eq!(l.game(), LahiGame::LuksongTinik);
    assert_eq!(l.format(), MatchFormat::TwoVTwo);
    assert_eq!(l.team_a(), &vec![SlotKind::You, SlotKind::Empty]);
    assert_eq!(l.team_b(), &vec![SlotKind::Empty, SlotKind::Empty]);
    l.pick_game(GamePickerButton::Next);
    assert_eq!(l.game(), LahiGame::Sipa);
    assert_eq!(l.format(), MatchFormat::OneVOne);
    for _ in 0..5 {
        l.pick_game(GamePickerButton::Next);
    }
    assert_eq!(l.game_idx(), 0);
}

#[test]
fn select_format_resets_teams() {
    let mut l = LobbyState::new();
    l.pick_game(GamePickerButton::Next);
    l.apply_slot_action(TeamSide::B, 0, SlotAction::AddAi);
    assert!(l.select_format(MatchFormat::ThreeVThree));
    assert_eq!(l.format(), MatchFormat::ThreeVThree);
    assert_eq!(l.team_a(), &vec![SlotKind::You, SlotKind::Empty, SlotKind::Empty]);
    assert_eq!(l.team_b(), &vec![SlotKind::Empty; 3]);
}

#[test]
fn select_format_refuses_formats_the_game_does_not_offer() {
    let mut l = LobbyState::new();
    l.apply_slot_action(TeamSide::B, 0, SlotAction::AddAi);
    assert!(!l.select_format(MatchFormat::ThreeVThree));
    assert_eq!(l.format(), MatchFormat::OneVOne);
    assert_eq!(l.team_b(), &vec![SlotKind::Ai(Difficulty::Normal)]);
    l.pick_game(GamePickerButton::Prev);
    assert_eq!(l.game(), LahiGame::LuksongTinik);
    assert!(!l.select_format(MatchFormat::OneVOne));
    assert_eq!(l.format(), MatchFormat::TwoVTwo);
    assert!(l.select_format(MatchFormat::ThreeVThree));
    assert_eq!(l.format(), MatchFormat::ThreeVThree);
}

#[test]
fn slot_actions() {
    let mut l = LobbyState::new();
    assert!(l.select_format(MatchFormat::TwoVTwo));
    assert!(l.apply_slot_action(TeamSide::A, 1, SlotAction::AddAi));
    assert_eq!(l.team_a()[1], SlotKind::Ai(Difficulty::Normal));
    assert!(l.apply_slot_action(TeamSide::A, 1, SlotAction::CycleAi));
    assert_eq!(l.team_a()[1], SlotKind::Ai(Difficulty::Hard));
    assert!(l.apply_slot_action(TeamSide::A, 1, SlotAction::CycleAi));
    assert_eq!(l.team_a()[1], SlotKind::Ai(Difficulty::Easy));
    assert!(l.apply_slot_action(TeamSide::A, 1, SlotAction::AddAi));
    assert_eq!(l.team_a()[1], SlotKind::Ai(Difficulty::Easy));
    assert!(l.apply_slot_action(TeamSide::A, 1, SlotAction::RemoveAi));
    assert_eq!(l.team_a()[1], SlotKind::Empty);
    assert!(l.apply_slot_action(TeamSide::A, 1, SlotAction::CycleAi));
    assert_eq!(l.team_a()[1], SlotKind::Empty);
    assert!(!l.apply_slot_action(TeamSide::B, 2, SlotAction::AddAi));
    assert_eq!(l.team_b(), &vec![SlotKind::Empty; 2]);
}

#[test]
fn player_slot_never_changes() {
    let mut l = LobbyState::new();
    for a in [SlotAction::AddAi, SlotAction::CycleAi, SlotAction::RemoveAi] {
        assert!(l.apply_slot_action(TeamSide::A, 0, a));
        assert_eq!(l.team_a()[0], SlotKind::You);
    }
}

#[test]
fn start_needs_every_slot_filled() {
    let mut l = LobbyState::new();
    l.pick_game(GamePickerButton::Next);
    assert!(l.select_format(MatchFormat::ThreeVThree));
    l.apply_slot_action(TeamSide::A, 1, SlotAction::AddAi);
    l.apply_slot_action(TeamSide::A, 2, SlotAction::AddAi);
    l.apply_slot_action(TeamSide::B, 0, SlotAction::AddAi);
    l.apply_slot_action(TeamSide::B, 1, SlotAction::AddAi);
    assert_eq!(l.start_match(), None);
    l.apply_slot_action(TeamSide::B, 2, SlotAction::AddAi);
    assert!(l.ready_to_start());
    assert_eq!(l.start_match(), Some((LahiGame::TumbangPreso, MatchFormat::ThreeVThree)));
    let occupied = l.team_a().iter().chain(l.team_b().iter()).filter(|s| **s != SlotKind::Empty).count();
    assert_eq!(occupied, MatchFormat::ThreeVThree.total_players());
}

#[test]
fn fill_then_start_for_each_game() {
    let mut l = LobbyState::new();
    for _ in 0..5 {
        fill_with_ai(&mut l);
        let (g, f) = l.start_match().unwrap();
        assert_eq!(g, l.game());
        assert!(g.available_formats().contains(&f));
        l.pick_game(GamePickerButton::Next);
    }
}

#[test]
fn dot_frames_cycle() {
    let mut l = LobbyState::new();
    let frames: Vec<usize> = (0..6)
        .map(|_| {
            l.advance_dot_frame();
            l.dot_frame()
        })
        .collect();
    assert_eq!(frames, vec![1, 2, 3, 0, 1, 2]);
}
