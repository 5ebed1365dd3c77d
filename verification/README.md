# dulahi

Game rules of Dulahi 3D, a collection of Larong Lahi (traditional Filipino
games), as a library verified with Verus, plus the Bevy program around it.

- `src/` — the verified library:
  - `games.rs`: the five games, their player ranges and team formats,
    team sides, AI difficulty, trivia.
  - `progression.rs`: Puntos, rank points and tiers, win/loss statistics,
    match rewards and the results rosters.
  - `catalog.rs`: the skin catalog, the inventory of owned skins and the
    equipped skins.
  - `shop.rs`: shop tabs, the cards of a category, purchases.
  - `avatar.rs`: the owned skins the Avatar screen lists.
  - `lobby.rs`: the LAN lobby (room role, game picker, team slots, start).
  - `game_select.rs`: single-player setup and the team preview.
  - `screens.rs`: the screen state machine (which button opens what).
  - `loading.rs`: trivia rotation on the loading screen.
- `tests/` — tests of the library on concrete values.
- `app/` — the Bevy program: window, UI layout and text, input handling,
  and the floating-point timers, volume and animations. The game's rules
  (formats, ranks, rewards, catalog, purchases, lobby, setup, screen
  transitions, trivia rotation) are calls into the library.
