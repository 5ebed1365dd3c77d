//! Pre-game loading screen: which trivia fact is shown.
use vstd::prelude::*;
use crate::games::LahiGame;

verus! {

/// The fact shown first: the game's first trivia fact, or a generic
/// "Loading…" when it has none.
pub fn first_trivia(game: LahiGame) -> (s: &'static str)
    ensures
        game.spec_trivia().len() > 0 ==> s == game.spec_trivia()[0],
        game.spec_trivia().len() == 0 ==> s@ == "Loading…"@,
{
    let facts = game.trivia();
    if facts.len() > 0 {
        facts[0]
    } else {
        "Loading…"
    }
}

/// Moves to the next trivia fact of `game`, wrapping around after the
/// last one. Returns the new index and its fact, or `None` when the
/// game has no facts (the shown fact then stays).
pub fn advance_trivia(game: LahiGame, index: usize) -> (r: Option<(usize, &'static str)>)
    requires
        index < usize::MAX,
    ensures
        game.spec_trivia().len() == 0 <==> r is None,
        r matches Some(p) ==> {
            &&& p.0 == (index + 1) % (game.spec_trivia().len() as int)
            &&& p.0 < game.spec_trivia().len()
            &&& p.1 == game.spec_trivia()[p.0 as int]
        },
{
    let facts = game.trivia();
    if facts.len() == 0 {
        None
    } else {
        let next = (index + 1) % facts.len();
        Some((next, facts[next]))
    }
}

/// Every game has trivia, so the loading screen always rotates real
/// facts; playable games have four each.
pub proof fn lemma_every_game_has_trivia(game: LahiGame)
    ensures
        game.spec_trivia().len() > 0,
        game != LahiGame::NoGame ==> game.spec_trivia().len() == 4,
{
}

} // verus!
