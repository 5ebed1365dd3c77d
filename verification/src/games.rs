//! The five Larong Lahi games, team formats, sides and AI difficulty.
use vstd::prelude::*;

verus! {

/// A team-vs-team match size: every game is played as Team A vs Team B.
#[derive(Clone, Copy, Debug, PartialEq, Eq, Structural)]
pub enum MatchFormat {
    OneVOne,
    TwoVTwo,
    ThreeVThree,
}

/// The three formats in their display order.
pub open spec fn all_formats() -> Seq<MatchFormat> {
    seq![MatchFormat::OneVOne, MatchFormat::TwoVTwo, MatchFormat::ThreeVThree]
}

impl MatchFormat {
    /// Players on each team.
    pub open spec fn spec_team_size(self) -> nat {
        match self {
            MatchFormat::OneVOne => 1,
            MatchFormat::TwoVTwo => 2,
            MatchFormat::ThreeVThree => 3,
        }
    }

    /// Players in the whole match (both teams).
    pub open spec fn spec_total_players(self) -> nat {
        2 * self.spec_team_size()
    }

    pub open spec fn spec_label(self) -> Seq<char> {
        match self {
            MatchFormat::OneVOne => "1v1"@,
            MatchFormat::TwoVTwo => "2v2"@,
            MatchFormat::ThreeVThree => "3v3"@,
        }
    }

    pub fn team_size(&self) -> (n: usize)
        ensures
            n == self.spec_team_size(),
    {
        match self {
            MatchFormat::OneVOne => 1,
            MatchFormat::TwoVTwo => 2,
            MatchFormat::ThreeVThree => 3,
        }
    }

    pub fn total_players(&self) -> (n: usize)
        ensures
            n == self.spec_total_players(),
    {
        self.team_size() * 2
    }

    pub fn label(&self) -> (s: &'static str)
        ensures
            s@ == self.spec_label(),
    {
        match self {
            MatchFormat::OneVOne => "1v1",
            MatchFormat::TwoVTwo => "2v2",
            MatchFormat::ThreeVThree => "3v3",
        }
    }

    /// All three formats, used when filtering by a game's player range.
    pub fn all() -> (r: &'static [MatchFormat])
        ensures
            r@ == all_formats(),
    {
        &[MatchFormat::OneVOne, MatchFormat::TwoVTwo, MatchFormat::ThreeVThree]
    }
}

/// Which side of a team-based match a slot belongs to.
#[derive(Clone, Copy, Debug, PartialEq, Eq, Structural)]
pub enum TeamSide {
    A,
    B,
}

impl TeamSide {
    pub open spec fn spec_other(self) -> TeamSide {
        match self {
            TeamSide::A => TeamSide::B,
            TeamSide::B => TeamSide::A,
        }
    }

    pub open spec fn spec_label(self) -> Seq<char> {
        match self {
            TeamSide::A => "Team A"@,
            TeamSide::B => "Team B"@,
        }
    }

    pub fn label(&self) -> (s: &'static str)
        ensures
            s@ == self.spec_label(),
    {
        match self {
            TeamSide::A => "Team A",
            TeamSide::B => "Team B",
        }
    }

    pub fn other(&self) -> (r: TeamSide)
        ensures
            r == self.spec_other(),
    {
        match self {
            TeamSide::A => TeamSide::B,
            TeamSide::B => TeamSide::A,
        }
    }
}

/// Which game the player has selected; `NoGame` until one is chosen.
#[derive(Clone, Copy, Debug, PartialEq, Eq, Structural)]
pub enum LahiGame {
    NoGame,
    Sipa,
    TumbangPreso,
    Patintero,
    Piko,
    LuksongTinik,
}

impl Default for LahiGame {
    fn default() -> (g: LahiGame)
        ensures
            g == LahiGame::NoGame,
    {
        LahiGame::NoGame
    }
}

/// The five playable games, in their stable display order.
pub open spec fn playable_games() -> Seq<LahiGame> {
    seq![
        LahiGame::Sipa,
        LahiGame::TumbangPreso,
        LahiGame::Patintero,
        LahiGame::Piko,
        LahiGame::LuksongTinik,
    ]
}

/// Keeps the formats of `formats` that fit `game`'s player range, in order.
pub open spec fn formats_fitting(game: LahiGame, formats: Seq<MatchFormat>) -> Seq<MatchFormat>
    decreases formats.len(),
{
    if formats.len() == 0 {
        seq![]
    } else {
        let rest = formats_fitting(game, formats.drop_last());
        if game.fits(formats.last()) {
            rest.push(formats.last())
        } else {
            rest
        }
    }
}

impl LahiGame {
    pub open spec fn spec_display_name(self) -> Seq<char> {
        match self {
            LahiGame::NoGame => "—"@,
            LahiGame::Sipa => "Sipa"@,
            LahiGame::TumbangPreso => "Tumbang Preso"@,
            LahiGame::Patintero => "Patintero"@,
            LahiGame::Piko => "Piko"@,
            LahiGame::LuksongTinik => "Luksong Tinik"@,
        }
    }

    /// Minimum number of players, from the game's documented player count.
    pub open spec fn spec_min_players(self) -> nat {
        match self {
            LahiGame::NoGame => 1,
            LahiGame::Sipa => 1,
            LahiGame::TumbangPreso => 2,
            LahiGame::Patintero => 2,
            LahiGame::Piko => 1,
            LahiGame::LuksongTinik => 3,
        }
    }

    /// Maximum number of players, from the game's documented player count.
    pub open spec fn spec_max_players(self) -> nat {
        match self {
            LahiGame::NoGame => 1,
            LahiGame::Sipa => 4,
            LahiGame::TumbangPreso => 6,
            LahiGame::Patintero => 6,
            LahiGame::Piko => 4,
            LahiGame::LuksongTinik => 6,
        }
    }

    /// A format fits a game when its total player count lies in the
    /// game's range `[min_players, max_players]`.
    pub open spec fn fits(self, f: MatchFormat) -> bool {
        self.spec_min_players() <= f.spec_total_players() <= self.spec_max_players()
    }

    pub open spec fn spec_available_formats(self) -> Seq<MatchFormat> {
        formats_fitting(self, all_formats())
    }

    pub open spec fn spec_trivia(self) -> Seq<&'static str> {
        match self {
            LahiGame::NoGame => seq!["Dulahi 3D — Larong Lahi, digital edition."],
            LahiGame::Sipa => seq![
                "Sipa means 'kick' in Filipino. The goal is to keep the sipa/takyan airborne using your feet.",
                "A sipa/takyan is traditionally made from strips of lead washer and feathers.",
                "Sipa was once considered the national sport of the Philippines before arnis took the title.",
                "Players earn one point per successful kick without letting the sipa touch the ground.",
            ],
            LahiGame::TumbangPreso => seq![
                "Tumbang Preso means 'knock down the prisoner' — the can is the prisoner!",
                "The taya (it) must guard the can while players try to topple it with their tsinelas.",
                "If the taya tags a player before they retrieve their slipper, that player becomes the new taya.",
                "Tumbang Preso teaches accuracy, strategy, and quick reflexes.",
            ],
            LahiGame::Patintero => seq![
                "Patintero is a team territory game played on a grid drawn in chalk or dirt.",
                "The defending team must block all horizontal and vertical lines without letting runners cross.",
                "A team scores when all runners successfully cross the entire grid and return.",
                "Patintero is sometimes called 'tubigan' in some regions of the Philippines.",
            ],
            LahiGame::Piko => seq![
                "Piko is the Filipino version of hopscotch, played on numbered squares.",
                "Players toss a pamato (small stone or piece of tile) to mark their progress.",
                "You must hop through all squares on one foot without stepping on lines or your pamato square.",
                "Piko develops balance, coordination, and counting skills in young players.",
            ],
            LahiGame::LuksongTinik => seq![
                "Luksong Tinik means 'jump over the thorns' — players jump over crossed hands and feet.",
                "Two players form the 'tinik' by pressing their hands and feet together, raising the height each round.",
                "A player who touches the tinik becomes the new tinik-holder.",
                "The game tests timing, agility, and jumping height — all while having fun with friends.",
            ],
        }
    }

    pub fn display_name(&self) -> (s: &'static str)
        ensures
            s@ == self.spec_display_name(),
    {
        match self {
            LahiGame::NoGame => "—",
            LahiGame::Sipa => "Sipa",
            LahiGame::TumbangPreso => "Tumbang Preso",
            LahiGame::Patintero => "Patintero",
            LahiGame::Piko => "Piko",
            LahiGame::LuksongTinik => "Luksong Tinik",
        }
    }

    /// All five playable games, in a stable display order.
    pub fn all() -> (r: &'static [LahiGame])
        ensures
            r@ == playable_games(),
    {
        &[
            LahiGame::Sipa,
            LahiGame::TumbangPreso,
            LahiGame::Patintero,
            LahiGame::Piko,
            LahiGame::LuksongTinik,
        ]
    }

    pub fn min_players(&self) -> (n: usize)
        ensures
            n == self.spec_min_players(),
    {
        match self {
            LahiGame::NoGame => 1,
            LahiGame::Sipa => 1,
            LahiGame::TumbangPreso => 2,
            LahiGame::Patintero => 2,
            LahiGame::Piko => 1,
            LahiGame::LuksongTinik => 3,
        }
    }

    pub fn max_players(&self) -> (n: usize)
        ensures
            n == self.spec_max_players(),
    {
        match self {
            LahiGame::NoGame => 1,
            LahiGame::Sipa => 4,
            LahiGame::TumbangPreso => 6,
            LahiGame::Patintero => 6,
            LahiGame::Piko => 4,
            LahiGame::LuksongTinik => 6,
        }
    }

    /// Whether this game offers `f`: its total player count falls
    /// within the game's player range.
    pub fn offers_format(&self, f: MatchFormat) -> (b: bool)
        ensures
            b == self.spec_available_formats().contains(f),
    {
        proof { lemma_available_formats_exact(*self, f); }
        let total = f.total_players();
        self.min_players() <= total && total <= self.max_players()
    }

    /// The team formats whose total player count falls within this
    /// game's player range, in the order of `MatchFormat::all()`.
    pub fn available_formats(&self) -> (r: Vec<MatchFormat>)
        ensures
            r@ == self.spec_available_formats(),
    {
        let all = MatchFormat::all();
        let mut r: Vec<MatchFormat> = Vec::new();
        let mut i: usize = 0;
        while i < all.len()
            invariant
                all@ == all_formats(),
                i <= all@.len(),
                r@ == formats_fitting(*self, all@.take(i as int)),
            decreases all@.len() - i,
        {
            let f = all[i];
            let total = f.total_players();
            assert(all@.take(i + 1).drop_last() == all@.take(i as int));
            if total >= self.min_players() && total <= self.max_players() {
                r.push(f);
            }
            i = i + 1;
        }
        assert(all@.take(all@.len() as int) == all@);
        r
    }

    /// The trivia facts shown on the pre-game loading screen.
    pub fn trivia(&self) -> (r: &'static [&'static str])
        ensures
            r@ == self.spec_trivia(),
    {
        match self {
            LahiGame::NoGame => &["Dulahi 3D — Larong Lahi, digital edition."],
            LahiGame::Sipa => &[
                "Sipa means 'kick' in Filipino. The goal is to keep the sipa/takyan airborne using your feet.",
                "A sipa/takyan is traditionally made from strips of lead washer and feathers.",
                "Sipa was once considered the national sport of the Philippines before arnis took the title.",
                "Players earn one point per successful kick without letting the sipa touch the ground.",
            ],
            LahiGame::TumbangPreso => &[
                "Tumbang Preso means 'knock down the prisoner' — the can is the prisoner!",
                "The taya (it) must guard the can while players try to topple it with their tsinelas.",
                "If the taya tags a player before they retrieve their slipper, that player becomes the new taya.",
                "Tumbang Preso teaches accuracy, strategy, and quick reflexes.",
            ],
            LahiGame::Patintero => &[
                "Patintero is a team territory game played on a grid drawn in chalk or dirt.",
                "The defending team must block all horizontal and vertical lines without letting runners cross.",
                "A team scores when all runners successfully cross the entire grid and return.",
                "Patintero is sometimes called 'tubigan' in some regions of the Philippines.",
            ],
            LahiGame::Piko => &[
                "Piko is the Filipino version of hopscotch, played on numbered squares.",
                "Players toss a pamato (small stone or piece of tile) to mark their progress.",
                "You must hop through all squares on one foot without stepping on lines or your pamato square.",
                "Piko develops balance, coordination, and counting skills in young players.",
            ],
            LahiGame::LuksongTinik => &[
                "Luksong Tinik means 'jump over the thorns' — players jump over crossed hands and feet.",
                "Two players form the 'tinik' by pressing their hands and feet together, raising the height each round.",
                "A player who touches the tinik becomes the new tinik-holder.",
                "The game tests timing, agility, and jumping height — all while having fun with friends.",
            ],
        }
    }
}

/// Which mode was selected.
#[derive(Clone, Copy, Debug, PartialEq, Eq, Structural)]
pub enum PlayMode {
    SinglePlayer,
    Multiplayer,
}

impl Default for PlayMode {
    fn default() -> (m: PlayMode)
        ensures
            m == PlayMode::SinglePlayer,
    {
        PlayMode::SinglePlayer
    }
}

/// Difficulty for AI-controlled players (teammates and opponents).
#[derive(Clone, Copy, Debug, PartialEq, Eq, Structural)]
pub enum Difficulty {
    Easy,
    Normal,
    Hard,
}

impl Default for Difficulty {
    fn default() -> (d: Difficulty)
        ensures
            d == Difficulty::Normal,
    {
        Difficulty::Normal
    }
}

impl Difficulty {
    pub open spec fn spec_label(self) -> Seq<char> {
        match self {
            Difficulty::Easy => "Easy"@,
            Difficulty::Normal => "Normal"@,
            Difficulty::Hard => "Hard"@,
        }
    }

    pub open spec fn spec_cycle(self) -> Difficulty {
        match self {
            Difficulty::Easy => Difficulty::Normal,
            Difficulty::Normal => Difficulty::Hard,
            Difficulty::Hard => Difficulty::Easy,
        }
    }

    pub fn label(&self) -> (s: &'static str)
        ensures
            s@ == self.spec_label(),
    {
        match self {
            Difficulty::Easy => "Easy",
            Difficulty::Normal => "Normal",
            Difficulty::Hard => "Hard",
        }
    }

    /// Cycles Easy -> Normal -> Hard -> Easy.
    pub fn cycle(&self) -> (d: Difficulty)
        ensures
            d == self.spec_cycle(),
    {
        match self {
            Difficulty::Easy => Difficulty::Normal,
            Difficulty::Normal => Difficulty::Hard,
            Difficulty::Hard => Difficulty::Easy,
        }
    }
}

/// The game chosen for the current session.
#[derive(Clone, Copy, Debug)]
pub struct SelectedGame(pub LahiGame);

impl Default for SelectedGame {
    fn default() -> (s: SelectedGame)
        ensures
            s.0 == LahiGame::NoGame,
    {
        SelectedGame(LahiGame::NoGame)
    }
}

/// The match size chosen for the current session.
#[derive(Clone, Copy, Debug)]
pub struct SelectedFormat(pub MatchFormat);

impl Default for SelectedFormat {
    fn default() -> (s: SelectedFormat)
        ensures
            s.0 == MatchFormat::OneVOne,
    {
        SelectedFormat(MatchFormat::OneVOne)
    }
}

/// Filtering keeps exactly the formats of the input that fit the game.
proof fn lemma_formats_fitting_contains(game: LahiGame, formats: Seq<MatchFormat>, f: MatchFormat)
    ensures
        formats_fitting(game, formats).contains(f) <==> (formats.contains(f) && game.fits(f)),
    decreases formats.len(),
{
    if formats.len() > 0 {
        let init = formats.drop_last();
        lemma_formats_fitting_contains(game, init, f);
        let rest = formats_fitting(game, init);
        assert(formats =~= init.push(formats.last()));
        if formats.contains(f) && f != formats.last() {
            let i = choose|i: int| 0 <= i < formats.len() && formats[i] == f;
            assert(init[i] == f);
        }
        if game.fits(formats.last()) {
            if rest.push(formats.last()).contains(f) && f != formats.last() {
                let j = choose|j: int| 0 <= j < rest.len() + 1 && rest.push(formats.last())[j] == f;
                assert(rest[j] == f);
            }
            if f == formats.last() {
                assert(rest.push(formats.last())[rest.len() as int] == f);
            }
            if rest.contains(f) {
                let j = choose|j: int| 0 <= j < rest.len() && rest[j] == f;
                assert(rest.push(formats.last())[j] == f);
            }
        }
        if init.contains(f) {
            let i = choose|i: int| 0 <= i < init.len() && init[i] == f;
            assert(formats[i] == f);
        }
    }
}

/// A format is offered for a game exactly when its total player count
/// lies within the game's player range.
pub proof fn lemma_available_formats_exact(game: LahiGame, f: MatchFormat)
    ensures
        game.spec_available_formats().contains(f) <==> game.fits(f),
{
    lemma_formats_fitting_contains(game, all_formats(), f);
    let k: int = match f {
        MatchFormat::OneVOne => 0,
        MatchFormat::TwoVTwo => 1,
        MatchFormat::ThreeVThree => 2,
    };
    assert(all_formats()[k] == f);
}

/// Every playable game offers at least one team format, so the first
/// available format of a chosen game always exists.
pub proof fn lemma_playable_games_offer_a_format(game: LahiGame)
    requires
        playable_games().contains(game),
    ensures
        game.spec_available_formats().len() > 0,
{
    let all = all_formats();
    assert(all.take(1).drop_last() =~= all.take(0));
    assert(all.take(2).drop_last() =~= all.take(1));
    assert(all.drop_last() =~= all.take(2));
    let i = choose|i: int| 0 <= i < playable_games().len() && playable_games()[i] == game;
    assert(game != LahiGame::NoGame);
    if game == LahiGame::LuksongTinik {
        lemma_available_formats_exact(game, MatchFormat::TwoVTwo);
    } else {
        lemma_available_formats_exact(game, MatchFormat::OneVOne);
    }
}

/// The other side of the other side is the side itself, and a side is
/// never its own opponent.
pub proof fn lemma_other_side_involution(side: TeamSide)
    ensures
        side.spec_other().spec_other() == side,
        side.spec_other() != side,
{
}

/// Cycling the difficulty three times returns to the start, and each
/// single step changes it.
pub proof fn lemma_difficulty_cycle_period(d: Difficulty)
    ensures
        d.spec_cycle().spec_cycle().spec_cycle() == d,
        d.spec_cycle() != d,
{
}

} // verus!
