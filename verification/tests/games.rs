use dulahi::games::{Difficulty, LahiGame, MatchFormat, PlayMode, SelectedFormat, SelectedGame, TeamSide};

#[test]
fn team_sizes_and_totals() {
    assert_eq!(MatchFormat::OneVOne.team_size(), 1);
    assert_eq!(MatchFormat::TwoVTwo.team_size(), 2);
    assert_eq!(MatchFormat::ThreeVThree.team_size(), 3);
    assert_eq!(MatchFormat::OneVOne.total_players(), 2);
    assert_eq!(MatchFormat::TwoVTwo.total_players(), 4);
    assert_eq!(MatchFormat::ThreeVThree.total_players(), 6);
}

#[test]
fn format_labels_and_order() {
    assert_eq!(MatchFormat::OneVOne.label(), "1v1");
    assert_eq!(MatchFormat::TwoVTwo.label(), "2v2");
    assert_eq!(MatchFormat::ThreeVThree.label(), "3v3");
    assert_eq!(
        MatchFormat::all(),
        &[MatchFormat::OneVOne, MatchFormat::TwoVTwo, MatchFormat::ThreeVThree]
    );
}

#[test]
fn team_sides() {
    assert_eq!(TeamSide::A.label(), "Team A");
    assert_eq!(TeamSide::B.label(), "Team B");
    assert_eq!(TeamSide::A.other(), TeamSide::B);
    assert_eq!(TeamSide::B.other(), TeamSide::A);
    assert_eq!(TeamSide::A.other().other(), TeamSide::A);
}

#[test]
fn games_in_display_order() {
    assert_eq!(
        LahiGame::all(),
        &[
            LahiGame::Sipa,
            LahiGame::TumbangPreso,
            LahiGame::Patintero,
            LahiGame::Piko,
            LahiGame::LuksongTinik
        ]
    );
    assert_eq!(LahiGame::default(), LahiGame::NoGame);
}

#[test]
fn display_names() {
    assert_eq!(LahiGame::NoGame.display_name(), "—");
    assert_eq!(LahiGame::Sipa.display_name(), "Sipa");
    assert_eq!(LahiGame::TumbangPreso.display_name(), "Tumbang Preso");
    assert_eq!(LahiGame::Patintero.display_name(), "Patintero");
    assert_eq!(LahiGame::Piko.display_name(), "Piko");
    assert_eq!(LahiGame::LuksongTinik.display_name(), "Luksong Tinik");
}

#[test]
fn player_ranges() {
    let ranges: Vec<(usize, usize)> = LahiGame::all()
        .iter()
        .map(|g| (g.min_players(), g.max_players()))
        .collect();
    assert_eq!(ranges, vec![(1, 4), (2, 6), (2, 6), (1, 4), (3, 6)]);
    assert_eq!((LahiGame::NoGame.min_players(), LahiGame::NoGame.max_players()), (1, 1));
}

#[test]
fn available_formats_follow_player_range() {
    let one = MatchFormat::OneVOne;
    let two = MatchFormat::TwoVTwo;
    let three = MatchFormat::ThreeVThree;
    assert_eq!(LahiGame::Sipa.available_formats(), vec![one, two]);
    assert_eq!(LahiGame::TumbangPreso.available_formats(), vec![one, two, three]);
    assert_eq!(LahiGame::Patintero.available_formats(), vec![one, two, three]);
    assert_eq!(LahiGame::Piko.available_formats(), vec![one, two]);
    assert_eq!(LahiGame::LuksongTinik.available_formats(), vec![two, three]);
    assert_eq!(LahiGame::NoGame.available_formats(), vec![]);
}

#[test]
fn every_playable_game_offers_a_format() {
    for g in LahiGame::all() {
        assert!(!g.available_formats().is_empty());
        for f in g.available_formats() {
            assert!(g.min_players() <= f.total_players() && f.total_players() <= g.max_players());
        }
    }
}

#[test]
fn trivia_counts_and_first_facts() {
    assert_eq!(LahiGame::NoGame.trivia(), &["Dulahi 3D — Larong Lahi, digital edition."]);
    for g in LahiGame::all() {
        assert_eq!(g.trivia().len(), 4);
    }
    assert_eq!(
        LahiGame::Piko.trivia()[0],
        "Piko is the Filipino version of hopscotch, played on numbered squares."
    );
    assert_eq!(
        LahiGame::LuksongTinik.trivia()[3],
        "The game tests timing, agility, and jumping height — all while having fun with friends."
    );
}

#[test]
fn difficulty_labels_and_cycle() {
    assert_eq!(Difficulty::default(), Difficulty::Normal);
    assert_eq!(Difficulty::Easy.label(), "Easy");
    assert_eq!(Difficulty::Normal.label(), "Normal");
    assert_eq!(Difficulty::Hard.label(), "Hard");
    assert_eq!(Difficulty::Easy.cycle(), Difficulty::Normal);
    assert_eq!(Difficulty::Normal.cycle(), Difficulty::Hard);
    assert_eq!(Difficulty::Hard.cycle(), Difficulty::Easy);
    for d in [Difficulty::Easy, Difficulty::Normal, Difficulty::Hard] {
        assert_eq!(d.cycle().cycle().cycle(), d);
        assert_ne!(d.cycle(), d);
    }
}

#[test]
fn session_defaults() {
    assert_eq!(PlayMode::default(), PlayMode::SinglePlayer);
    assert_eq!(SelectedGame::default().0, LahiGame::NoGame);
    assert_eq!(SelectedFormat::default().0, MatchFormat::OneVOne);
}

#[test]
fn offers_format_matches_available_formats() {
    for g in LahiGame::all().iter().chain([LahiGame::NoGame].iter()) {
        for f in MatchFormat::all() {
            assert_eq!(g.offers_format(*f), g.available_formats().contains(f));
        }
    }
    assert!(!LahiGame::LuksongTinik.offers_format(MatchFormat::OneVOne));
    assert!(LahiGame::Sipa.offers_format(MatchFormat::TwoVTwo));
}
