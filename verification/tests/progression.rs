use dulahi::games::{MatchFormat, TeamSide};
use dulahi::progression::{
    apply_rewards, can_apply_rewards, match_rewards, result_rosters, winner_side, Currency, PlayerStats, RankPoints,
    RankTier,
};

#[test]
fn defaults() {
    assert_eq!(Currency::default().0, 250);
    assert_eq!(RankPoints::default().0, 0);
    let s = PlayerStats::default();
    assert_eq!((s.wins, s.losses), (0, 0));
}

#[test]
fn tiers_at_boundaries() {
    assert_eq!(RankTier::from_points(0), RankTier::Baguhan);
    assert_eq!(RankTier::from_points(99), RankTier::Baguhan);
    assert_eq!(RankTier::from_points(100), RankTier::Manlalaro);
    assert_eq!(RankTier::from_points(299), RankTier::Manlalaro);
    assert_eq!(RankTier::from_points(300), RankTier::Mandirigma);
    assert_eq!(RankTier::from_points(599), RankTier::Mandirigma);
    assert_eq!(RankTier::from_points(600), RankTier::Bayani);
    assert_eq!(RankTier::from_points(999), RankTier::Bayani);
    assert_eq!(RankTier::from_points(1000), RankTier::Datu);
    assert_eq!(RankTier::from_points(u32::MAX), RankTier::Datu);
}

#[test]
fn tier_names_and_thresholds() {
    assert_eq!(RankTier::Baguhan.display_name(), "Baguhan");
    assert_eq!(RankTier::Manlalaro.display_name(), "Manlalaro");
    assert_eq!(RankTier::Mandirigma.display_name(), "Mandirigma");
    assert_eq!(RankTier::Bayani.display_name(), "Bayani");
    assert_eq!(RankTier::Datu.display_name(), "Datu");
    assert_eq!(RankTier::Baguhan.next_threshold(), Some(100));
    assert_eq!(RankTier::Manlalaro.next_threshold(), Some(300));
    assert_eq!(RankTier::Mandirigma.next_threshold(), Some(600));
    assert_eq!(RankTier::Bayani.next_threshold(), Some(1000));
    assert_eq!(RankTier::Datu.next_threshold(), None);
}

#[test]
fn threshold_starts_next_tier() {
    for p in [0u32, 50, 99, 100, 250, 299, 300, 599, 600, 999] {
        let t = RankTier::from_points(p);
        let n = t.next_threshold().unwrap();
        assert!(p < n);
        assert_eq!(RankTier::from_points(n - 1), t);
        assert_ne!(RankTier::from_points(n), t);
    }
}

#[test]
fn tier_is_monotone() {
    let mut last = RankTier::from_points(0);
    for p in 0..1200u32 {
        let t = RankTier::from_points(p);
        assert!(t >= last);
        last = t;
    }
}

#[test]
fn rewards_and_winner() {
    assert_eq!(match_rewards(true), (60, 25));
    assert_eq!(match_rewards(false), (20, 10));
    assert_eq!(winner_side(true), TeamSide::A);
    assert_eq!(winner_side(false), TeamSide::B);
}

#[test]
fn first_match_is_won_then_outcomes_alternate() {
    let mut c = Currency::default();
    let mut r = RankPoints::default();
    let mut s = PlayerStats::default();
    assert!(apply_rewards(&mut c, &mut r, &mut s));
    assert_eq!((c.0, r.0, s.wins, s.losses), (310, 25, 1, 0));
    assert!(!apply_rewards(&mut c, &mut r, &mut s));
    assert_eq!((c.0, r.0, s.wins, s.losses), (330, 35, 1, 1));
    assert!(apply_rewards(&mut c, &mut r, &mut s));
    assert_eq!((c.0, r.0, s.wins, s.losses), (390, 60, 2, 1));
}

#[test]
fn rewards_near_the_limit() {
    let mut c = Currency(u32::MAX - 60);
    let mut r = RankPoints(u32::MAX - 25);
    let mut s = PlayerStats { wins: 0, losses: 0 };
    assert!(apply_rewards(&mut c, &mut r, &mut s));
    assert_eq!((c.0, r.0), (u32::MAX, u32::MAX));
}

#[test]
fn result_rosters_per_format() {
    let (a, b) = result_rosters(MatchFormat::OneVOne);
    assert_eq!(a, vec!["You"]);
    assert_eq!(b, vec!["AI Opponent"]);
    let (a, b) = result_rosters(MatchFormat::ThreeVThree);
    assert_eq!(a, vec!["You", "AI Teammate", "AI Teammate"]);
    assert_eq!(b, vec!["AI Opponent", "AI Opponent", "AI Opponent"]);
}

#[test]
fn reward_room_is_checked() {
    let ok = can_apply_rewards(
        &Currency(u32::MAX - 60),
        &RankPoints(u32::MAX - 25),
        &PlayerStats { wins: 0, losses: 0 },
    );
    assert!(ok);
    let full_wallet = can_apply_rewards(
        &Currency(u32::MAX - 59),
        &RankPoints(0),
        &PlayerStats { wins: 0, losses: 0 },
    );
    assert!(!full_wallet);
    let losing_needs_less = can_apply_rewards(
        &Currency(u32::MAX - 20),
        &RankPoints(u32::MAX - 10),
        &PlayerStats { wins: 1, losses: 0 },
    );
    assert!(losing_needs_less);
    let too_many_games = can_apply_rewards(
        &Currency(0),
        &RankPoints(0),
        &PlayerStats { wins: u32::MAX, losses: 1 },
    );
    assert!(!too_many_games);
    let rank_full_on_loss = can_apply_rewards(
        &Currency(0),
        &RankPoints(u32::MAX - 9),
        &PlayerStats { wins: 1, losses: 0 },
    );
    assert!(!rank_full_on_loss);
}
