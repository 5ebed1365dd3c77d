//! LAN lobby state: room role, chosen game and format, and the slots
//! of both teams. A match starts only once every slot of both teams is
//! occupied by the player or an AI bot.
use vstd::prelude::*;
use crate::games::{LahiGame, MatchFormat, Difficulty, TeamSide, playable_games};

verus! {

/// What occupies one team slot.
#[derive(Clone, Copy, Debug, PartialEq, Eq, Structural)]
pub enum SlotKind {
    Empty,
    You,
    Ai(Difficulty),
}

/// What a slot button asks for.
#[derive(Clone, Copy, Debug, PartialEq, Eq, Structural)]
pub enum SlotAction {
    AddAi,
    CycleAi,
    RemoveAi,
}

/// Host or join a room.
#[derive(Clone, Copy, Debug, PartialEq, Eq, Structural)]
pub enum RoomButton {
    Host,
    Join,
}

/// Step through the games.
#[derive(Clone, Copy, Debug, PartialEq, Eq, Structural)]
pub enum GamePickerButton {
    Prev,
    Next,
}

/// The format a lobby uses for a game: its first available format, or
/// 1v1 when it offers none.
pub open spec fn spec_lobby_format(game: LahiGame) -> MatchFormat {
    if game.spec_available_formats().len() > 0 {
        game.spec_available_formats()[0]
    } else {
        MatchFormat::OneVOne
    }
}

/// Team A of a fresh lobby: the player, then empty slots.
pub open spec fn fresh_team_a(size: nat) -> Seq<SlotKind> {
    Seq::new(size, |i: int| if i == 0 { SlotKind::You } else { SlotKind::Empty })
}

/// Team B of a fresh lobby: all slots empty.
pub open spec fn fresh_team_b(size: nat) -> Seq<SlotKind> {
    Seq::new(size, |i: int| SlotKind::Empty)
}

/// The slot after a slot button is pressed: AI is added only to an
/// empty slot, cycled or removed only on an AI slot.
pub open spec fn slot_after(slot: SlotKind, action: SlotAction) -> SlotKind {
    match action {
        SlotAction::AddAi => if slot == SlotKind::Empty {
            SlotKind::Ai(Difficulty::Normal)
        } else {
            slot
        },
        SlotAction::CycleAi => match slot {
            SlotKind::Ai(d) => SlotKind::Ai(d.spec_cycle()),
            _ => slot,
        },
        SlotAction::RemoveAi => match slot {
            SlotKind::Ai(_) => SlotKind::Empty,
            _ => slot,
        },
    }
}

/// Every slot is occupied.
pub open spec fn all_filled(team: Seq<SlotKind>) -> bool {
    forall|i: int| 0 <= i < team.len() ==> team[i] != SlotKind::Empty
}

/// Number of occupied slots.
pub open spec fn occupied(team: Seq<SlotKind>) -> nat
    decreases team.len(),
{
    if team.len() == 0 {
        0
    } else {
        occupied(team.drop_last()) + if team.last() == SlotKind::Empty { 0nat } else { 1nat }
    }
}

pub open spec fn spec_next_game_idx(idx: int, button: GamePickerButton) -> int {
    match button {
        GamePickerButton::Prev => (idx + 5 - 1) % 5,
        GamePickerButton::Next => (idx + 1) % 5,
    }
}

fn lobby_format(game: LahiGame) -> (f: MatchFormat)
    ensures
        f == spec_lobby_format(game),
{
    let formats = game.available_formats();
    if formats.len() > 0 {
        formats[0]
    } else {
        MatchFormat::OneVOne
    }
}

pub struct LobbyState {
    is_host: bool,
    game_idx: usize,
    format: MatchFormat,
    team_a: Vec<SlotKind>,
    team_b: Vec<SlotKind>,
    dot_frame: usize,
}

impl LobbyState {
    pub closed spec fn spec_is_host(self) -> bool {
        self.is_host
    }

    pub closed spec fn spec_game_idx(self) -> int {
        self.game_idx as int
    }

    pub closed spec fn spec_format(self) -> MatchFormat {
        self.format
    }

    pub closed spec fn spec_team_a(self) -> Seq<SlotKind> {
        self.team_a@
    }

    pub closed spec fn spec_team_b(self) -> Seq<SlotKind> {
        self.team_b@
    }

    pub closed spec fn spec_dot_frame(self) -> int {
        self.dot_frame as int
    }

    /// The game currently shown by the picker.
    pub open spec fn spec_game(self) -> LahiGame {
        playable_games()[self.spec_game_idx()]
    }

    pub open spec fn spec_team(self, side: TeamSide) -> Seq<SlotKind> {
        match side {
            TeamSide::A => self.spec_team_a(),
            TeamSide::B => self.spec_team_b(),
        }
    }

    /// The format is one the current game offers; both teams have one
    /// slot per player of the format; the player holds the first slot of
    /// Team A and no other slot.
    pub open spec fn well_formed(self) -> bool {
        &&& 0 <= self.spec_game_idx() < 5
        &&& self.spec_game().spec_available_formats().contains(self.spec_format())
        &&& 0 <= self.spec_dot_frame() < 4
        &&& self.spec_team_a().len() == self.spec_format().spec_team_size()
        &&& self.spec_team_b().len() == self.spec_format().spec_team_size()
        &&& self.spec_team_a()[0] == SlotKind::You
        &&& forall|i: int| 1 <= i < self.spec_team_a().len() ==> self.spec_team_a()[i] != SlotKind::You
        &&& forall|i: int| 0 <= i < self.spec_team_b().len() ==> self.spec_team_b()[i] != SlotKind::You
    }

    #[verifier::type_invariant]
    closed spec fn inv(self) -> bool {
        self.well_formed()
    }

    /// A lobby reset to `format` with fresh teams.
    fn fresh(is_host: bool, game_idx: usize, format: MatchFormat, dot_frame: usize) -> (s: LobbyState)
        requires
            game_idx < 5,
            dot_frame < 4,
            playable_games()[game_idx as int].spec_available_formats().contains(format),
        ensures
            s.spec_is_host() == is_host,
            s.spec_game_idx() == game_idx,
            s.spec_format() == format,
            s.spec_team_a() == fresh_team_a(format.spec_team_size()),
            s.spec_team_b() == fresh_team_b(format.spec_team_size()),
            s.spec_dot_frame() == dot_frame,
    {
        let size = format.team_size();
        let mut team_a: Vec<SlotKind> = vec![SlotKind::Empty; size];
        team_a.set(0, SlotKind::You);
        let team_b: Vec<SlotKind> = vec![SlotKind::Empty; size];
        assert(team_a@ =~= fresh_team_a(size as nat));
        assert(team_b@ =~= fresh_team_b(size as nat));
        LobbyState { is_host, game_idx, format, team_a, team_b, dot_frame }
    }

    /// A hosted lobby on the first game, with that game's first format.
    pub fn new() -> (s: LobbyState)
        ensures
            s.well_formed(),
            s.spec_is_host(),
            s.spec_game_idx() == 0,
            s.spec_format() == spec_lobby_format(LahiGame::Sipa),
            s.spec_team_a() == fresh_team_a(s.spec_format().spec_team_size()),
            s.spec_team_b() == fresh_team_b(s.spec_format().spec_team_size()),
            s.spec_dot_frame() == 0,
    {
        let game = LahiGame::all()[0];
        let format = lobby_format(game);
        proof { lemma_lobby_format_of_picked_game(0); }
        LobbyState::fresh(true, 0, format, 0)
    }

    pub fn is_host(&self) -> (b: bool)
        ensures
            b == self.spec_is_host(),
    {
        self.is_host
    }

    pub fn game_idx(&self) -> (i: usize)
        ensures
            i == self.spec_game_idx(),
            i < 5,
    {
        proof { use_type_invariant(self); }
        self.game_idx
    }

    /// The game currently shown by the picker.
    pub fn game(&self) -> (g: LahiGame)
        ensures
            g == self.spec_game(),
    {
        proof { use_type_invariant(self); }
        LahiGame::all()[self.game_idx]
    }

    pub fn format(&self) -> (f: MatchFormat)
        ensures
            f == self.spec_format(),
    {
        self.format
    }

    pub fn team_a(&self) -> (t: &Vec<SlotKind>)
        ensures
            t@ == self.spec_team_a(),
            self.well_formed(),
    {
        proof { use_type_invariant(self); }
        &self.team_a
    }

    pub fn team_b(&self) -> (t: &Vec<SlotKind>)
        ensures
            t@ == self.spec_team_b(),
            self.well_formed(),
    {
        proof { use_type_invariant(self); }
        &self.team_b
    }

    pub fn dot_frame(&self) -> (f: usize)
        ensures
            f == self.spec_dot_frame(),
    {
        self.dot_frame
    }

    /// Becomes host or joins a room.
    pub fn press_room_button(&mut self, button: RoomButton)
        ensures
            final(self).well_formed(),
            final(self).spec_is_host() == (button == RoomButton::Host),
            final(self).spec_game_idx() == old(self).spec_game_idx(),
            final(self).spec_format() == old(self).spec_format(),
            final(self).spec_team_a() == old(self).spec_team_a(),
            final(self).spec_team_b() == old(self).spec_team_b(),
            final(self).spec_dot_frame() == old(self).spec_dot_frame(),
    {
        proof { use_type_invariant(&*self); }
        self.is_host = button == RoomButton::Host;
    }

    /// The status line for the current room role.
    pub fn status_message(&self) -> (s: &'static str)
        ensures
            s@ == (if self.spec_is_host() {
                "Hosting — waiting for players. Fill empty slots with AI if needed."@
            } else {
                "Scanning for rooms on your Wi-Fi network..."@
            }),
    {
        if self.is_host {
            "Hosting — waiting for players. Fill empty slots with AI if needed."
        } else {
            "Scanning for rooms on your Wi-Fi network..."
        }
    }

    /// Moves the game picker one game back or forward (wrapping), then
    /// resets the format to the new game's first format and both teams.
    pub fn pick_game(&mut self, button: GamePickerButton)
        ensures
            final(self).well_formed(),
            final(self).spec_game_idx() == spec_next_game_idx(old(self).spec_game_idx(), button),
            button == GamePickerButton::Next ==> final(self).spec_game_idx() == (if old(self).spec_game_idx() < 4 {
                old(self).spec_game_idx() + 1
            } else {
                0
            }),
            button == GamePickerButton::Prev ==> final(self).spec_game_idx() == (if old(self).spec_game_idx() > 0 {
                old(self).spec_game_idx() - 1
            } else {
                4
            }),
            final(self).spec_format() == spec_lobby_format(final(self).spec_game()),
            final(self).spec_team_a() == fresh_team_a(final(self).spec_format().spec_team_size()),
            final(self).spec_team_b() == fresh_team_b(final(self).spec_format().spec_team_size()),
            final(self).spec_is_host() == old(self).spec_is_host(),
            final(self).spec_dot_frame() == old(self).spec_dot_frame(),
    {
        proof { use_type_invariant(&*self); }
        let n = LahiGame::all().len();
        let idx = match button {
            GamePickerButton::Prev => (self.game_idx + n - 1) % n,
            GamePickerButton::Next => (self.game_idx + 1) % n,
        };
        let game = LahiGame::all()[idx];
        let format = lobby_format(game);
        proof { lemma_lobby_format_of_picked_game(idx as int); }
        *self = LobbyState::fresh(self.is_host, idx, format, self.dot_frame);
    }

    /// Chooses a team format and resets both teams to it, but only a
    /// format the current game offers; any other format is refused and
    /// nothing changes. Returns whether the format was taken.
    pub fn select_format(&mut self, format: MatchFormat) -> (taken: bool)
        ensures
            final(self).well_formed(),
            taken == old(self).spec_game().spec_available_formats().contains(format),
            taken ==> final(self).spec_format() == format,
            taken ==> final(self).spec_team_a() == fresh_team_a(format.spec_team_size()),
            taken ==> final(self).spec_team_b() == fresh_team_b(format.spec_team_size()),
            !taken ==> final(self).spec_format() == old(self).spec_format(),
            !taken ==> final(self).spec_team_a() == old(self).spec_team_a(),
            !taken ==> final(self).spec_team_b() == old(self).spec_team_b(),
            final(self).spec_game_idx() == old(self).spec_game_idx(),
            final(self).spec_is_host() == old(self).spec_is_host(),
            final(self).spec_dot_frame() == old(self).spec_dot_frame(),
    {
        proof { use_type_invariant(&*self); }
        if self.game().offers_format(format) {
            *self = LobbyState::fresh(self.is_host, self.game_idx, format, self.dot_frame);
            true
        } else {
            false
        }
    }

    /// Applies a slot button to slot `index` of `side`; returns whether
    /// the slot exists. AI is added only to an empty slot and cycled or
    /// removed only on an AI slot, so the player's slot never changes.
    pub fn apply_slot_action(&mut self, side: TeamSide, index: usize, action: SlotAction) -> (touched: bool)
        ensures
            final(self).well_formed(),
            touched == (index < old(self).spec_team(side).len()),
            touched ==> final(self).spec_team(side) == old(self).spec_team(side).update(
                index as int,
                slot_after(old(self).spec_team(side)[index as int], action),
            ),
            !touched ==> final(self).spec_team(side) == old(self).spec_team(side),
            final(self).spec_team(side.spec_other()) == old(self).spec_team(side.spec_other()),
            final(self).spec_format() == old(self).spec_format(),
            final(self).spec_game_idx() == old(self).spec_game_idx(),
            final(self).spec_is_host() == old(self).spec_is_host(),
            final(self).spec_dot_frame() == old(self).spec_dot_frame(),
    {
        proof { use_type_invariant(&*self); }
        let mut slots: Vec<SlotKind> = match side {
            TeamSide::A => self.team_a.clone(),
            TeamSide::B => self.team_b.clone(),
        };
        assert(slots@ =~= self.spec_team(side));
        if index < slots.len() {
            let slot = slots[index];
            let next = match action {
                SlotAction::AddAi => if slot == SlotKind::Empty {
                    SlotKind::Ai(Difficulty::Normal)
                } else {
                    slot
                },
                SlotAction::CycleAi => match slot {
                    SlotKind::Ai(d) => SlotKind::Ai(d.cycle()),
                    _ => slot,
                },
                SlotAction::RemoveAi => match slot {
                    SlotKind::Ai(_) => SlotKind::Empty,
                    _ => slot,
                },
            };
            assert(next == slot_after(slot, action));
            assert(next == SlotKind::You <==> slot == SlotKind::You);
            slots.set(index, next);
            match side {
                TeamSide::A => {
                    let team_b = self.team_b.clone();
                    assert(team_b@ =~= self.team_b@);
                    *self = LobbyState {
                        is_host: self.is_host,
                        game_idx: self.game_idx,
                        format: self.format,
                        team_a: slots,
                        team_b,
                        dot_frame: self.dot_frame,
                    };
                },
                TeamSide::B => {
                    let team_a = self.team_a.clone();
                    assert(team_a@ =~= self.team_a@);
                    *self = LobbyState {
                        is_host: self.is_host,
                        game_idx: self.game_idx,
                        format: self.format,
                        team_a,
                        team_b: slots,
                        dot_frame: self.dot_frame,
                    };
                },
            }
            true
        } else {
            false
        }
    }

    /// Whether every slot of both teams is occupied (player or AI).
    pub fn ready_to_start(&self) -> (b: bool)
        ensures
            b == (all_filled(self.spec_team_a()) && all_filled(self.spec_team_b())),
    {
        all_occupied(&self.team_a) && all_occupied(&self.team_b)
    }

    /// The game and format to start, once every slot is occupied.
    pub fn start_match(&self) -> (r: Option<(LahiGame, MatchFormat)>)
        ensures
            r is Some <==> (all_filled(self.spec_team_a()) && all_filled(self.spec_team_b())),
            r matches Some(p) ==> p == (self.spec_game(), self.spec_format()),
            r matches Some(p) ==> p.0.spec_available_formats().contains(p.1),
    {
        proof { use_type_invariant(self); }
        if self.ready_to_start() {
            Some((self.game(), self.format))
        } else {
            None
        }
    }

    /// Advances the "Hosting…" / "Scanning…" dot animation frame.
    pub fn advance_dot_frame(&mut self)
        ensures
            final(self).well_formed(),
            final(self).spec_dot_frame() == (old(self).spec_dot_frame() + 1) % 4,
            final(self).spec_game_idx() == old(self).spec_game_idx(),
            final(self).spec_format() == old(self).spec_format(),
            final(self).spec_team_a() == old(self).spec_team_a(),
            final(self).spec_team_b() == old(self).spec_team_b(),
            final(self).spec_is_host() == old(self).spec_is_host(),
    {
        proof { use_type_invariant(&*self); }
        self.dot_frame = (self.dot_frame + 1) % 4;
    }
}

impl Default for LobbyState {
    fn default() -> (s: LobbyState)
        ensures
            s.well_formed(),
            s.spec_is_host(),
            s.spec_game_idx() == 0,
            s.spec_format() == spec_lobby_format(LahiGame::Sipa),
            s.spec_team_a() == fresh_team_a(s.spec_format().spec_team_size()),
            s.spec_team_b() == fresh_team_b(s.spec_format().spec_team_size()),
            s.spec_dot_frame() == 0,
    {
        LobbyState::new()
    }
}

fn all_occupied(team: &Vec<SlotKind>) -> (b: bool)
    ensures
        b == all_filled(team@),
{
    let mut i: usize = 0;
    while i < team.len()
        invariant
            i <= team@.len(),
            forall|j: int| 0 <= j < i ==> team@[j] != SlotKind::Empty,
        decreases team@.len() - i,
    {
        if team[i] == SlotKind::Empty {
            return false;
        }
        i = i + 1;
    }
    true
}

proof fn lemma_filled_team_fully_occupied(team: Seq<SlotKind>)
    requires
        all_filled(team),
    ensures
        occupied(team) == team.len(),
    decreases team.len(),
{
    if team.len() > 0 {
        lemma_filled_team_fully_occupied(team.drop_last());
    }
}

/// A lobby that is ready to start holds exactly as many players and
/// bots as the chosen format has players.
pub proof fn lemma_ready_lobby_matches_format(s: LobbyState)
    requires
        s.well_formed(),
        all_filled(s.spec_team_a()),
        all_filled(s.spec_team_b()),
    ensures
        occupied(s.spec_team_a()) + occupied(s.spec_team_b()) == s.spec_format().spec_total_players(),
{
    lemma_filled_team_fully_occupied(s.spec_team_a());
    lemma_filled_team_fully_occupied(s.spec_team_b());
}

/// Removing an AI bot undoes adding one, and the player's own slot is
/// never changed by any slot button.
pub proof fn lemma_slot_actions(slot: SlotKind, action: SlotAction)
    ensures
        slot_after(slot_after(SlotKind::Empty, SlotAction::AddAi), SlotAction::RemoveAi) == SlotKind::Empty,
        slot_after(SlotKind::You, action) == SlotKind::You,
        slot_after(slot, action) == SlotKind::You ==> slot == SlotKind::You,
{
}

/// What each slot button does to a slot: Add AI puts a Normal bot into
/// an empty slot and leaves an occupied one alone; Cycle AI steps a
/// bot's difficulty Easy to Normal to Hard and back to Easy; Remove AI
/// empties a bot's slot. Cycling and removing leave slots without a bot
/// as they are.
pub proof fn lemma_slot_action_effects(slot: SlotKind)
    ensures
        slot_after(SlotKind::Empty, SlotAction::AddAi) == SlotKind::Ai(Difficulty::Normal),
        slot != SlotKind::Empty ==> slot_after(slot, SlotAction::AddAi) == slot,
        slot_after(SlotKind::Ai(Difficulty::Easy), SlotAction::CycleAi) == SlotKind::Ai(Difficulty::Normal),
        slot_after(SlotKind::Ai(Difficulty::Normal), SlotAction::CycleAi) == SlotKind::Ai(Difficulty::Hard),
        slot_after(SlotKind::Ai(Difficulty::Hard), SlotAction::CycleAi) == SlotKind::Ai(Difficulty::Easy),
        slot is Ai ==> slot_after(slot, SlotAction::RemoveAi) == SlotKind::Empty,
        !(slot is Ai) ==> slot_after(slot, SlotAction::CycleAi) == slot && slot_after(slot, SlotAction::RemoveAi)
            == slot,
{
}

/// Stepping the game picker back undoes stepping it forward, and the
/// reverse; five steps forward return to the same game.
pub proof fn lemma_game_picker_round_trip(idx: int)
    requires
        0 <= idx < 5,
    ensures
        spec_next_game_idx(spec_next_game_idx(idx, GamePickerButton::Next), GamePickerButton::Prev) == idx,
        spec_next_game_idx(spec_next_game_idx(idx, GamePickerButton::Prev), GamePickerButton::Next) == idx,
        0 <= spec_next_game_idx(idx, GamePickerButton::Next) < 5,
        0 <= spec_next_game_idx(idx, GamePickerButton::Prev) < 5,
{
}

/// Next moves the game picker to the following game of the playable
/// games, wrapping from the last to the first; Prev moves it to the
/// preceding one, wrapping from the first to the last. No game is
/// skipped in either direction.
pub proof fn lemma_game_picker_steps_to_adjacent(idx: int)
    requires
        0 <= idx < 5,
    ensures
        idx < 4 ==> spec_next_game_idx(idx, GamePickerButton::Next) == idx + 1,
        idx == 4 ==> spec_next_game_idx(idx, GamePickerButton::Next) == 0,
        idx > 0 ==> spec_next_game_idx(idx, GamePickerButton::Prev) == idx - 1,
        idx == 0 ==> spec_next_game_idx(idx, GamePickerButton::Prev) == 4,
        idx < 4 ==> playable_games()[spec_next_game_idx(idx, GamePickerButton::Next)] == playable_games()[idx + 1],
        idx > 0 ==> playable_games()[spec_next_game_idx(idx, GamePickerButton::Prev)] == playable_games()[idx - 1],
{
}

/// The format a lobby picks for the game at picker position `idx` is one
/// that game offers.
proof fn lemma_lobby_format_of_picked_game(idx: int)
    requires
        0 <= idx < 5,
    ensures
        playable_games()[idx].spec_available_formats().contains(spec_lobby_format(playable_games()[idx])),
{
    assert(playable_games().contains(playable_games()[idx]));
    lemma_lobby_format_is_available(playable_games()[idx]);
}

/// For every playable game, the format a lobby picks for it is one the
/// game actually offers.
pub proof fn lemma_lobby_format_is_available(game: LahiGame)
    requires
        playable_games().contains(game),
    ensures
        game.spec_available_formats().contains(spec_lobby_format(game)),
{
    crate::games::lemma_playable_games_offer_a_format(game);
    assert(game.spec_available_formats()[0] == spec_lobby_format(game));
}

} // verus!
