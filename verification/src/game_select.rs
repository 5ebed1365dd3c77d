//! Single-player match setup: pick a game, a team format the game
//! supports, and an AI difficulty. AI fills every slot but the
//! player's own, on both teams.
use vstd::prelude::*;
use vstd::string::*;
use crate::games::{LahiGame, MatchFormat, Difficulty, playable_games};

verus! {

/// The difficulty chosen by a difficulty button index: 0 is Easy, 2 is
/// Hard, anything else Normal.
pub open spec fn spec_difficulty_from_index(idx: int) -> Difficulty {
    if idx == 0 {
        Difficulty::Easy
    } else if idx == 2 {
        Difficulty::Hard
    } else {
        Difficulty::Normal
    }
}

pub fn difficulty_from_index(idx: usize) -> (d: Difficulty)
    ensures
        d == spec_difficulty_from_index(idx as int),
{
    match idx {
        0 => Difficulty::Easy,
        2 => Difficulty::Hard,
        _ => Difficulty::Normal,
    }
}

/// The label of a difficulty index as shown in the team preview.
pub open spec fn spec_difficulty_index_label(idx: int) -> Seq<char> {
    if idx == 0 {
        "Easy"@
    } else if idx == 1 {
        "Normal"@
    } else {
        "Hard"@
    }
}

pub fn difficulty_index_label(idx: usize) -> (s: &'static str)
    requires
        idx < 3,
    ensures
        s@ == spec_difficulty_index_label(idx as int),
{
    let labels: [&'static str; 3] = ["Easy", "Normal", "Hard"];
    labels[idx]
}

/// Icon and one-line description of each game card, in the order of
/// `LahiGame::all()`.
pub fn game_card_meta(idx: usize) -> (r: (&'static str, &'static str))
    requires
        idx < 5,
    ensures
        idx == 0 ==> r.0@ == "◉"@ && r.1@ == "Keep the sipa/takyan airborne"@,
        idx == 1 ==> r.0@ == "◎"@ && r.1@ == "Knock down the lata, guard it"@,
        idx == 2 ==> r.0@ == "⊞"@ && r.1@ == "Cross the grid as a team"@,
        idx == 3 ==> r.0@ == "◫"@ && r.1@ == "Hop the grid without a slip"@,
        idx == 4 ==> r.0@ == "⇑"@ && r.1@ == "Jump the tinik in time"@,
{
    match idx {
        0 => ("◉", "Keep the sipa/takyan airborne"),
        1 => ("◎", "Knock down the lata, guard it"),
        2 => ("⊞", "Cross the grid as a team"),
        3 => ("◫", "Hop the grid without a slip"),
        _ => ("⇑", "Jump the tinik in time"),
    }
}

/// The first format a game offers, if any.
pub open spec fn spec_first_format(game: LahiGame) -> Option<MatchFormat> {
    if game.spec_available_formats().len() > 0 {
        Some(game.spec_available_formats()[0])
    } else {
        None
    }
}

/// The choices made so far on the game-select screen.
pub struct GameSelectState {
    chosen_game: Option<usize>,
    chosen_format: Option<MatchFormat>,
    chosen_diff: usize,
}

impl GameSelectState {
    pub closed spec fn spec_chosen_game(self) -> Option<usize> {
        self.chosen_game
    }

    pub closed spec fn spec_chosen_format(self) -> Option<MatchFormat> {
        self.chosen_format
    }

    pub closed spec fn spec_chosen_diff(self) -> int {
        self.chosen_diff as int
    }

    /// A chosen game is one of the five; a format is chosen only after a
    /// game, and only one that game offers; the difficulty index is one of
    /// the three buttons.
    pub open spec fn well_formed(self) -> bool {
        &&& self.spec_chosen_game() matches Some(i) ==> i < 5
        &&& self.spec_chosen_format() is Some ==> self.spec_chosen_game() is Some
        &&& self.spec_chosen_format() matches Some(f) ==> playable_games()[
            self.spec_chosen_game()->0 as int].spec_available_formats().contains(f)
        &&& 0 <= self.spec_chosen_diff() < 3
    }

    #[verifier::type_invariant]
    closed spec fn inv(self) -> bool {
        self.well_formed()
    }

    /// Nothing chosen yet.
    pub fn new() -> (s: GameSelectState)
        ensures
            s.well_formed(),
            s.spec_chosen_game() is None,
            s.spec_chosen_format() is None,
            s.spec_chosen_diff() == 0,
    {
        GameSelectState { chosen_game: None, chosen_format: None, chosen_diff: 0 }
    }

    pub fn chosen_game(&self) -> (r: Option<usize>)
        ensures
            r == self.spec_chosen_game(),
            self.well_formed(),
    {
        proof { use_type_invariant(self); }
        self.chosen_game
    }

    pub fn chosen_format(&self) -> (r: Option<MatchFormat>)
        ensures
            r == self.spec_chosen_format(),
    {
        self.chosen_format
    }

    pub fn chosen_diff(&self) -> (r: usize)
        ensures
            r == self.spec_chosen_diff(),
            r < 3,
    {
        proof { use_type_invariant(self); }
        self.chosen_diff
    }

    /// Picks game `idx`: its first available format is preselected and
    /// the difficulty resets to Normal.
    pub fn choose_game(&mut self, idx: usize)
        requires
            idx < 5,
        ensures
            final(self).well_formed(),
            final(self).spec_chosen_game() == Some(idx),
            final(self).spec_chosen_format() == spec_first_format(playable_games()[idx as int]),
            final(self).spec_chosen_diff() == 1,
    {
        let game = LahiGame::all()[idx];
        let formats = game.available_formats();
        let format = if formats.len() > 0 {
            assert(formats@.contains(formats@[0]));
            Some(formats[0])
        } else {
            None
        };
        *self = GameSelectState { chosen_game: Some(idx), chosen_format: format, chosen_diff: 1 };
    }

    /// Picks a format; taken only once a game is chosen and only if that
    /// game offers it, otherwise nothing changes. Returns whether it was
    /// taken.
    pub fn choose_format(&mut self, format: MatchFormat) -> (taken: bool)
        ensures
            final(self).well_formed(),
            taken == (old(self).spec_chosen_game() matches Some(i)
                && playable_games()[i as int].spec_available_formats().contains(format)),
            taken ==> final(self).spec_chosen_format() == Some(format),
            !taken ==> final(self).spec_chosen_format() == old(self).spec_chosen_format(),
            final(self).spec_chosen_game() == old(self).spec_chosen_game(),
            final(self).spec_chosen_diff() == old(self).spec_chosen_diff(),
    {
        proof { use_type_invariant(&*self); }
        match self.chosen_game {
            Some(idx) => if LahiGame::all()[idx].offers_format(format) {
                self.chosen_format = Some(format);
                true
            } else {
                false
            },
            None => false,
        }
    }

    /// Picks a difficulty index; ignored until a game and format are
    /// chosen. Returns whether it was taken.
    pub fn choose_difficulty(&mut self, idx: usize) -> (taken: bool)
        requires
            old(self).spec_chosen_game() is Some && old(self).spec_chosen_format() is Some ==> idx < 3,
        ensures
            final(self).well_formed(),
            taken == (old(self).spec_chosen_game() is Some && old(self).spec_chosen_format() is Some),
            taken ==> final(self).spec_chosen_diff() == idx,
            !taken ==> final(self).spec_chosen_diff() == old(self).spec_chosen_diff(),
            final(self).spec_chosen_game() == old(self).spec_chosen_game(),
            final(self).spec_chosen_format() == old(self).spec_chosen_format(),
    {
        proof { use_type_invariant(&*self); }
        if self.chosen_game.is_some() && self.chosen_format.is_some() {
            self.chosen_diff = idx;
            true
        } else {
            false
        }
    }

    /// Whether a game and a format are chosen, so the match can start.
    pub fn is_ready(&self) -> (b: bool)
        ensures
            b == (self.spec_chosen_game() is Some && self.spec_chosen_format() is Some),
    {
        self.chosen_game.is_some() && self.chosen_format.is_some()
    }

    /// The game, format and difficulty to start with, once ready.
    pub fn start(&self) -> (r: Option<(LahiGame, MatchFormat, Difficulty)>)
        ensures
            r is Some <==> (self.spec_chosen_game() is Some && self.spec_chosen_format() is Some),
            r matches Some(t) ==> t == (
                playable_games()[self.spec_chosen_game()->0 as int],
                self.spec_chosen_format()->0,
                spec_difficulty_from_index(self.spec_chosen_diff()),
            ),
            r matches Some(t) ==> t.0.spec_available_formats().contains(t.1),
    {
        proof { use_type_invariant(self); }
        match (self.chosen_game, self.chosen_format) {
            (Some(idx), Some(format)) => Some((LahiGame::all()[idx], format, difficulty_from_index(self.chosen_diff))),
            _ => None,
        }
    }
}

impl Default for GameSelectState {
    fn default() -> (s: GameSelectState)
        ensures
            s.well_formed(),
            s.spec_chosen_game() is None,
            s.spec_chosen_format() is None,
            s.spec_chosen_diff() == 0,
    {
        GameSelectState::new()
    }
}

/// Name of an AI player in the preview: `prefix (Difficulty)`.
pub open spec fn ai_name(prefix: Seq<char>, diff_idx: int) -> Seq<char> {
    prefix + " ("@ + spec_difficulty_index_label(diff_idx) + ")"@
}

fn ai_player_name(prefix: &str, diff_idx: usize) -> (s: String)
    requires
        diff_idx < 3,
    ensures
        s@ == ai_name(prefix@, diff_idx as int),
{
    let mut s = String::from_str(prefix);
    s.append(" (");
    s.append(difficulty_index_label(diff_idx));
    s.append(")");
    s
}

/// The team preview: your team is you plus AI teammates, the enemy
/// team is all AI opponents, one entry per slot of the format.
pub fn preview_teams(format: MatchFormat, diff_idx: usize) -> (r: (Vec<String>, Vec<String>))
    requires
        diff_idx < 3,
    ensures
        r.0@.len() == format.spec_team_size(),
        r.1@.len() == format.spec_team_size(),
        r.0@[0]@ == "You"@,
        forall|i: int| 1 <= i < r.0@.len() ==> r.0@[i]@ == ai_name("AI Teammate"@, diff_idx as int),
        forall|i: int| 0 <= i < r.1@.len() ==> r.1@[i]@ == ai_name("AI Opponent"@, diff_idx as int),
{
    let team_size = format.team_size();
    let mut yours: Vec<String> = Vec::new();
    yours.push(String::from_str("You"));
    let mut i: usize = 1;
    while i < team_size
        invariant
            1 <= i <= team_size,
            team_size == format.spec_team_size(),
            diff_idx < 3,
            yours@.len() == i,
            yours@[0]@ == "You"@,
            forall|j: int| 1 <= j < i ==> yours@[j]@ == ai_name("AI Teammate"@, diff_idx as int),
        decreases team_size - i,
    {
        yours.push(ai_player_name("AI Teammate", diff_idx));
        i = i + 1;
    }
    let mut enemies: Vec<String> = Vec::new();
    let mut k: usize = 0;
    while k < team_size
        invariant
            k <= team_size,
            team_size == format.spec_team_size(),
            diff_idx < 3,
            enemies@.len() == k,
            forall|j: int| 0 <= j < k ==> enemies@[j]@ == ai_name("AI Opponent"@, diff_idx as int),
        decreases team_size - k,
    {
        enemies.push(ai_player_name("AI Opponent", diff_idx));
        k = k + 1;
    }
    (yours, enemies)
}

/// The difficulty a button index starts the match with is the one whose
/// label the preview shows.
pub proof fn lemma_preview_label_matches_difficulty(idx: int)
    requires
        0 <= idx < 3,
    ensures
        spec_difficulty_from_index(idx).spec_label() == spec_difficulty_index_label(idx),
{
}

} // verus!
